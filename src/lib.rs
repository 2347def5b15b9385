use vstd::prelude::*;

verus! {

/// The five resource families served by the gateway.
#[derive(Clone, Copy, Debug, PartialEq, Eq, Structural)]
pub enum EntityKind {
    Task,
    Project,
    Member,
    Team,
    Label,
}

/// The five operations offered for every kind.
#[derive(Clone, Copy, Debug, PartialEq, Eq, Structural)]
pub enum Operation {
    Create,
    GetOne,
    GetMany,
    Update,
    Delete,
}

/// Whether creation of an entity of this kind records its owner.
pub open spec fn owned_kind(k: EntityKind) -> bool {
    k == EntityKind::Task || k == EntityKind::Project
}

/// Registry lookup: is the kind owned.
pub fn is_owned(kind: EntityKind) -> (r: bool)
    ensures
        r == owned_kind(kind),
{
    match kind {
        EntityKind::Task => true,
        EntityKind::Project => true,
        _ => false,
    }
}

/// The authenticated caller.
#[derive(Clone, Copy, Debug, PartialEq, Eq, Structural)]
pub struct Identity {
    pub member_id: u128,
}

/// A create payload: the owner field the gateway controls, and the rest,
/// which it forwards untouched.
#[derive(Clone, Debug)]
pub struct CreateInput<B> {
    pub owner_id: Option<u128>,
    pub body: B,
}

/// Errors visible at the gateway boundary.
#[derive(Clone, Copy, Debug, PartialEq, Eq, Structural)]
pub enum GatewayError {
    Unauthorized,
    EngineFailure,
}

/// Resolves a caller from the credential found in the request and the
/// validator's answer for it (`None` where it knows no such member).
pub fn resolve_identity(credential_present: bool, validated: Option<u128>) -> (r: Result<Identity, GatewayError>)
    ensures
        (credential_present && validated.is_some()) <==> r.is_ok(),
        r.is_ok() ==> r.unwrap().member_id == validated.unwrap(),
        r.is_err() ==> r == Err::<Identity, GatewayError>(GatewayError::Unauthorized),
{
    if !credential_present {
        return Err(GatewayError::Unauthorized);
    }
    match validated {
        Some(id) => Ok(Identity { member_id: id }),
        None => Err(GatewayError::Unauthorized),
    }
}

/// The create payload after the ownership policy.
pub open spec fn owned_input<B>(kind: EntityKind, input: CreateInput<B>, who: Identity) -> CreateInput<B> {
    if owned_kind(kind) {
        CreateInput { owner_id: Some(who.member_id), body: input.body }
    } else {
        input
    }
}

/// Ownership policy: for owned kinds the owner becomes the caller, whatever
/// was supplied; other kinds pass through unchanged.
pub fn apply_ownership<B>(kind: EntityKind, input: CreateInput<B>, who: Identity) -> (r: CreateInput<B>)
    ensures
        r == owned_input(kind, input, who),
{
    if is_owned(kind) {
        CreateInput { owner_id: Some(who.member_id), body: input.body }
    } else {
        input
    }
}

/// A request for one kind, as the transport decoded it.
pub enum Request<B, U, Q> {
    Create(CreateInput<B>),
    GetOne(u128),
    GetMany(Q),
    Update(u128, U),
    Delete(u128),
}

impl<B, U, Q> Request<B, U, Q> {
    pub open spec fn op(&self) -> Operation {
        match self {
            Request::Create(_) => Operation::Create,
            Request::GetOne(_) => Operation::GetOne,
            Request::GetMany(_) => Operation::GetMany,
            Request::Update(_, _) => Operation::Update,
            Request::Delete(_) => Operation::Delete,
        }
    }
}

/// The single engine operation a request is turned into.
pub struct EngineCall<B, U, Q> {
    pub kind: EntityKind,
    pub request: Request<B, U, Q>,
}

/// What the dispatcher hands to the engine for a request of `kind` by `who`.
pub open spec fn dispatched<B, U, Q>(kind: EntityKind, req: Request<B, U, Q>, who: Identity) -> EngineCall<B, U, Q> {
    match req {
        Request::Create(c) => EngineCall { kind, request: Request::Create(owned_input(kind, c, who)) },
        _ => EngineCall { kind, request: req },
    }
}

/// Authenticates, applies the ownership policy on create, and names the one
/// engine call to make. Without an identity no call is made.
pub fn dispatch<B, U, Q>(kind: EntityKind, req: Request<B, U, Q>, auth: Result<Identity, GatewayError>) -> (r: Result<EngineCall<B, U, Q>, GatewayError>)
    ensures
        auth.is_err() ==> r == Err::<EngineCall<B, U, Q>, GatewayError>(GatewayError::Unauthorized),
        auth.is_ok() ==> r == Ok::<EngineCall<B, U, Q>, GatewayError>(dispatched(kind, req, auth.unwrap())),
{
    match auth {
        Err(_) => Err(GatewayError::Unauthorized),
        Ok(who) => {
            match req {
                Request::Create(c) => Ok(EngineCall { kind, request: Request::Create(apply_ownership(kind, c, who)) }),
                Request::GetOne(id) => Ok(EngineCall { kind, request: Request::GetOne(id) }),
                Request::GetMany(q) => Ok(EngineCall { kind, request: Request::GetMany(q) }),
                Request::Update(id, u) => Ok(EngineCall { kind, request: Request::Update(id, u) }),
                Request::Delete(id) => Ok(EngineCall { kind, request: Request::Delete(id) }),
            }
        },
    }
}

/// The status of every successful response.
pub const SUCCESS_STATUS: u16 = 200;

/// What the engine answered: one entity, or a list of them.
pub enum Reply<E> {
    One(E),
    Many(Vec<E>),
}

/// A shaped gateway response.
pub enum GatewayResponse<E> {
    Success { status: u16, body: Reply<E> },
    Failure(GatewayError),
}

/// Response shaping: success carries the engine's answer under status 200;
/// any engine failure becomes the one generic failure.
pub fn shape<E, X>(result: Result<Reply<E>, X>) -> (r: GatewayResponse<E>)
    ensures
        r == shape_spec(result),
{
    match result {
        Ok(b) => GatewayResponse::Success { status: SUCCESS_STATUS, body: b },
        Err(_) => GatewayResponse::Failure(GatewayError::EngineFailure),
    }
}

/// For owned kinds the dispatched create carries the caller as owner, for
/// every supplied owner, forged or absent.
pub proof fn owner_is_caller<B>(kind: EntityKind, input: CreateInput<B>, who: Identity)
    requires
        owned_kind(kind),
    ensures
        dispatched::<B, (), ()>(kind, Request::Create(input), who).request == Request::<B, (), ()>::Create(
            CreateInput { owner_id: Some(who.member_id), body: input.body },
        ),
{
}

/// For kinds that are not owned, create forwards its input unchanged.
pub proof fn unowned_create_unchanged<B>(kind: EntityKind, input: CreateInput<B>, who: Identity)
    requires
        !owned_kind(kind),
    ensures
        dispatched::<B, (), ()>(kind, Request::Create(input), who).request == Request::<B, (), ()>::Create(input),
{
}

/// Every request becomes exactly one engine call, of the same kind and operation.
pub proof fn dispatch_keeps_kind_and_op<B, U, Q>(kind: EntityKind, req: Request<B, U, Q>, who: Identity)
    ensures
        dispatched(kind, req, who).kind == kind,
        dispatched(kind, req, who).request.op() == req.op(),
{
}

/// An empty list from the engine is a success with an empty body.
pub proof fn empty_list_succeeds<E, X>(result: Result<Reply<E>, X>)
    requires
        result matches Ok(Reply::Many(v)) && v@.len() == 0,
    ensures
        shape_spec(result) matches GatewayResponse::Success { status, body: Reply::Many(w) } && status == 200 && w@.len() == 0,
{
}

/// Success carries the engine's answer under status 200; failure is generic.
pub open spec fn shape_spec<E, X>(result: Result<Reply<E>, X>) -> GatewayResponse<E> {
    match result {
        Ok(b) => GatewayResponse::Success { status: 200u16, body: b },
        Err(_) => GatewayResponse::Failure(GatewayError::EngineFailure),
    }
}

/// The HTTP surface's handle on the application core.
pub struct PlexoOpenAPI<C> {
    pub core: C,
}

impl<C> PlexoOpenAPI<C> {
    pub fn new(core: C) -> (r: Self)
        ensures
            r.core == core,
    {
        Self { core }
    }
}

} // verus!
