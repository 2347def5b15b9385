use plexo_gateway::{
    dispatch, is_owned, resolve_identity, shape, CreateInput, EntityKind, GatewayError,
    GatewayResponse, Identity, PlexoOpenAPI, Reply, Request,
};

fn who() -> Result<Identity, GatewayError> {
    Ok(Identity { member_id: 7 })
}

#[test]
fn task_owner_is_caller() {
    let req: Request<&str, (), ()> = Request::Create(CreateInput { owner_id: Some(99), body: "t" });
    let call = dispatch(EntityKind::Task, req, who()).unwrap();
    match call.request {
        Request::Create(c) => {
            assert_eq!(c.owner_id, Some(7));
            assert_eq!(c.body, "t");
        }
        _ => panic!("wrong operation"),
    }
}

#[test]
fn project_owner_set_when_absent() {
    let req: Request<u8, (), ()> = Request::Create(CreateInput { owner_id: None, body: 1 });
    match dispatch(EntityKind::Project, req, who()).unwrap().request {
        Request::Create(c) => assert_eq!(c.owner_id, Some(7)),
        _ => panic!("wrong operation"),
    }
}

#[test]
fn label_create_unchanged() {
    let req: Request<&str, (), ()> = Request::Create(CreateInput { owner_id: Some(3), body: "red" });
    match dispatch(EntityKind::Label, req, who()).unwrap().request {
        Request::Create(c) => {
            assert_eq!(c.owner_id, Some(3));
            assert_eq!(c.body, "red");
        }
        _ => panic!("wrong operation"),
    }
}

#[test]
fn unauthorized_before_engine() {
    let auth = resolve_identity(false, Some(7));
    assert!(matches!(auth, Err(GatewayError::Unauthorized)));
    let r = dispatch::<(), (), ()>(EntityKind::Team, Request::Delete(5), auth);
    assert!(matches!(r, Err(GatewayError::Unauthorized)));
    assert!(matches!(resolve_identity(true, None), Err(GatewayError::Unauthorized)));
    assert_eq!(resolve_identity(true, Some(4)).unwrap().member_id, 4);
}

#[test]
fn kind_and_op_kept() {
    let call = dispatch::<(), (), ()>(EntityKind::Member, Request::GetOne(12), who()).unwrap();
    assert_eq!(call.kind, EntityKind::Member);
    assert!(matches!(call.request, Request::GetOne(12)));
    assert!(is_owned(EntityKind::Task) && !is_owned(EntityKind::Team));
}

#[test]
fn empty_list_is_success() {
    let r = shape::<u8, ()>(Ok(Reply::Many(vec![])));
    assert!(matches!(r, GatewayResponse::Success { status: 200, body: Reply::Many(ref v) } if v.is_empty()));
}

#[test]
fn engine_failure_is_generic() {
    let r = shape::<u8, &str>(Err("not found"));
    assert!(matches!(r, GatewayResponse::Failure(GatewayError::EngineFailure)));
}

#[test]
fn delete_echoes_entity() {
    let r = shape::<&str, ()>(Ok(Reply::One("before")));
    assert!(matches!(r, GatewayResponse::Success { status: 200, body: Reply::One("before") }));
    let api = PlexoOpenAPI::new(3u8);
    assert_eq!(api.core, 3);
}
