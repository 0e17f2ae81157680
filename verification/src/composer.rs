//! Validated call plans for the native composer entry points.
//!
//! Nothing cryptographic happens here: each public function checks its
//! buffers and, when they pass, produces a call plan that carries them to the
//! foreign boundary unchanged. The unverified shell around this crate
//! executes a plan against the native library; the verdict-interpretation
//! functions here say what its raw outcome means.

use vstd::prelude::*;

verus! {

/// The native sizing entry points: the padded gate count or the exact one.
#[derive(Clone, Copy, PartialEq, Eq, Structural, Debug)]
pub enum SizeKind {
    Padded,
    Exact,
}

/// Why a call plan refused its buffers.
#[derive(Clone, Copy, PartialEq, Eq, Structural, Debug)]
pub enum ComposerError {
    EmptyConstraintSystem,
    EmptyG2Data,
    EmptyWitness,
}

/// An opaque ticket standing for a live multi-scalar-multiplication context
/// on the native side. The unverified shell mints one per native context it
/// owns and maps it back to the raw handle when it performs a call; this
/// layer never creates, releases or inspects the context, only forwards the
/// ticket.
#[derive(Clone, Copy, PartialEq, Eq, Structural, Debug)]
pub struct MsmContext {
    pub token: u64,
}

/// A planned call to one of the native circuit-sizing entry points. The
/// constraint-system buffer crosses the boundary exactly as it was given.
pub struct CircuitSizeCall<'a> {
    pub kind: SizeKind,
    pub constraint_system: &'a [u8],
}

/// A planned call to the native prover. Every buffer crosses the boundary
/// exactly as it was given; the proof bytes come back through the shell.
pub struct ProveCall<'a> {
    pub context: MsmContext,
    pub constraint_system: &'a [u8],
    pub g2_data: &'a [u8],
    pub witness: &'a [u8],
}

/// A planned call to the native proof verifier.
pub struct VerifyCall<'a> {
    pub context: MsmContext,
    pub proof: &'a [u8],
    pub constraint_system: &'a [u8],
    pub g2_data: &'a [u8],
}

/// What `verify` decided: refuse the buffers outright (the verdict is false
/// and nothing crosses the boundary), or put this call to the native
/// verifier.
pub enum VerifyAction<'a> {
    Reject,
    Call(VerifyCall<'a>),
}

/// A planned call to the native verifier-contract generator.
pub struct ContractCall<'a> {
    pub context: MsmContext,
    pub g2_data: &'a [u8],
    pub constraint_system: &'a [u8],
}

/// The native entry point a sizing call must be dispatched to.
pub open spec fn spec_size_symbol(kind: SizeKind) -> Seq<char> {
    match kind {
        SizeKind::Padded => "composer__get_circuit_size"@,
        SizeKind::Exact => "standard_example__get_exact_circuit_size"@,
    }
}

impl<'a> CircuitSizeCall<'a> {
    /// The allowlisted native symbol this plan must be dispatched to.
    pub fn symbol(&self) -> (r: &'static str)
        ensures
            r@ == spec_size_symbol(self.kind),
    {
        match self.kind {
            SizeKind::Padded => "composer__get_circuit_size",
            SizeKind::Exact => "standard_example__get_exact_circuit_size",
        }
    }
}

impl<'a> ProveCall<'a> {
    /// The allowlisted native symbol this plan must be dispatched to.
    pub fn symbol(&self) -> (r: &'static str)
        ensures
            r@ == "composer__new_proof"@,
    {
        "composer__new_proof"
    }
}

impl<'a> VerifyCall<'a> {
    /// The allowlisted native symbol this plan must be dispatched to.
    pub fn symbol(&self) -> (r: &'static str)
        ensures
            r@ == "composer__verify_proof"@,
    {
        "composer__verify_proof"
    }
}

impl<'a> ContractCall<'a> {
    /// The allowlisted native symbol this plan must be dispatched to.
    pub fn symbol(&self) -> (r: &'static str)
        ensures
            r@ == "composer__smart_contract"@,
    {
        "composer__smart_contract"
    }
}

/// Whether `verify` refuses these buffers: any of them empty means the
/// verification call never crosses into foreign code.
pub open spec fn spec_rejects_verify(
    proof: Seq<u8>,
    constraint_system: Seq<u8>,
    g2_data: Seq<u8>,
) -> bool {
    proof.len() == 0 || constraint_system.len() == 0 || g2_data.len() == 0
}

/// The verdict this layer reports: false for refused buffers, otherwise
/// exactly what the native verifier answered.
pub open spec fn spec_verdict(
    proof: Seq<u8>,
    constraint_system: Seq<u8>,
    g2_data: Seq<u8>,
    native_accepts: bool,
) -> bool {
    !spec_rejects_verify(proof, constraint_system, g2_data) && native_accepts
}

/// Plans a query for the number of gates the constraint system needs, padded
/// as the native library pads it. An empty buffer is refused before it could
/// reach foreign code.
pub fn get_circuit_size<'a>(constraint_system: &'a [u8]) -> (r: Result<
    CircuitSizeCall<'a>,
    ComposerError,
>)
    ensures
        r is Err <==> constraint_system@.len() == 0,
        r matches Err(e) ==> e == ComposerError::EmptyConstraintSystem,
        r matches Ok(c) ==> c.kind == SizeKind::Padded && c.constraint_system@
            == constraint_system@,
{
    if constraint_system.len() == 0 {
        Err(ComposerError::EmptyConstraintSystem)
    } else {
        Ok(CircuitSizeCall { kind: SizeKind::Padded, constraint_system })
    }
}

/// Plans a query for the exact, unpadded gate count of the constraint
/// system. An empty buffer is refused before it could reach foreign code.
pub fn get_exact_circuit_size<'a>(constraint_system: &'a [u8]) -> (r: Result<
    CircuitSizeCall<'a>,
    ComposerError,
>)
    ensures
        r is Err <==> constraint_system@.len() == 0,
        r matches Err(e) ==> e == ComposerError::EmptyConstraintSystem,
        r matches Ok(c) ==> c.kind == SizeKind::Exact && c.constraint_system@
            == constraint_system@,
{
    if constraint_system.len() == 0 {
        Err(ComposerError::EmptyConstraintSystem)
    } else {
        Ok(CircuitSizeCall { kind: SizeKind::Exact, constraint_system })
    }
}

/// Plans a native proving call for the constraint system, public setup data
/// and witness. Each empty buffer is refused, the first one in argument
/// order named in the error; accepted buffers and the context ticket are
/// forwarded unchanged.
pub fn create_proof<'a>(
    context: MsmContext,
    constraint_system: &'a [u8],
    g2_data: &'a [u8],
    witness: &'a [u8],
) -> (r: Result<ProveCall<'a>, ComposerError>)
    ensures
        r is Err <==> constraint_system@.len() == 0 || g2_data@.len() == 0 || witness@.len() == 0,
        constraint_system@.len() == 0 ==> r == Err::<ProveCall<'a>, ComposerError>(
            ComposerError::EmptyConstraintSystem,
        ),
        constraint_system@.len() > 0 && g2_data@.len() == 0 ==> r == Err::<
            ProveCall<'a>,
            ComposerError,
        >(ComposerError::EmptyG2Data),
        constraint_system@.len() > 0 && g2_data@.len() > 0 && witness@.len() == 0 ==> r == Err::<
            ProveCall<'a>,
            ComposerError,
        >(ComposerError::EmptyWitness),
        r matches Ok(c) ==> c.context == context && c.constraint_system@ == constraint_system@
            && c.g2_data@ == g2_data@ && c.witness@ == witness@,
{
    if constraint_system.len() == 0 {
        Err(ComposerError::EmptyConstraintSystem)
    } else if g2_data.len() == 0 {
        Err(ComposerError::EmptyG2Data)
    } else if witness.len() == 0 {
        Err(ComposerError::EmptyWitness)
    } else {
        Ok(ProveCall { context, constraint_system, g2_data, witness })
    }
}

/// Plans a native verification call. The proof buffer must not carry a
/// prepended public-input section; upholding that encoding is the caller's
/// responsibility, as it is for every buffer encoding at this boundary.
/// A zero-length proof — and any other empty buffer — is rejected here, so
/// it never crosses into foreign code and its verdict is false.
pub fn verify<'a>(
    context: MsmContext,
    proof: &'a [u8],
    constraint_system: &'a [u8],
    g2_data: &'a [u8],
) -> (r: VerifyAction<'a>)
    ensures
        r is Reject <==> spec_rejects_verify(proof@, constraint_system@, g2_data@),
        r matches VerifyAction::Call(c) ==> c.context == context && c.proof@ == proof@
            && c.constraint_system@ == constraint_system@ && c.g2_data@ == g2_data@,
{
    if proof.len() == 0 || constraint_system.len() == 0 || g2_data.len() == 0 {
        VerifyAction::Reject
    } else {
        VerifyAction::Call(VerifyCall { context, proof, constraint_system, g2_data })
    }
}

/// The verdict this layer reports for a verification request: false for a
/// rejected one, and for one that crossed the boundary exactly the answer
/// the native verifier gave.
pub fn verify_verdict<'a>(action: &VerifyAction<'a>, native_accepts: bool) -> (r: bool)
    ensures
        *action is Reject ==> r == false,
        *action is Call ==> r == native_accepts,
{
    match action {
        VerifyAction::Reject => false,
        VerifyAction::Call(_) => native_accepts,
    }
}

/// Plans a request for the on-chain verifier contract matching the
/// constraint system and public setup data. Each empty buffer is refused,
/// the g2 buffer first as it comes first in argument order.
pub fn smart_contract<'a>(
    context: MsmContext,
    g2_data: &'a [u8],
    constraint_system: &'a [u8],
) -> (r: Result<ContractCall<'a>, ComposerError>)
    ensures
        r is Err <==> g2_data@.len() == 0 || constraint_system@.len() == 0,
        g2_data@.len() == 0 ==> r == Err::<ContractCall<'a>, ComposerError>(
            ComposerError::EmptyG2Data,
        ),
        g2_data@.len() > 0 && constraint_system@.len() == 0 ==> r == Err::<
            ContractCall<'a>,
            ComposerError,
        >(ComposerError::EmptyConstraintSystem),
        r matches Ok(c) ==> c.context == context && c.g2_data@ == g2_data@ && c.constraint_system@
            == constraint_system@,
{
    if g2_data.len() == 0 {
        Err(ComposerError::EmptyG2Data)
    } else if constraint_system.len() == 0 {
        Err(ComposerError::EmptyConstraintSystem)
    } else {
        Ok(ContractCall { context, g2_data, constraint_system })
    }
}

/// A zero-length proof buffer can never be reported as valid: `verify`
/// refuses it before it reaches foreign code, and the verdict for a refused
/// request is false whatever the native verifier would have answered.
pub proof fn lemma_empty_proof_never_verifies(
    proof: Seq<u8>,
    constraint_system: Seq<u8>,
    g2_data: Seq<u8>,
    native_accepts: bool,
)
    requires
        proof.len() == 0,
    ensures
        spec_rejects_verify(proof, constraint_system, g2_data),
        !spec_verdict(proof, constraint_system, g2_data, native_accepts),
{
}

/// This layer's share of the round-trip guarantee. `create_proof` and
/// `verify` forward their buffers unchanged, so the native verifier sees
/// exactly the proof bytes the native prover produced together with the same
/// constraint system and setup data; and for buffers it does not reject the
/// verdict is exactly the native answer, so the layer never turns a native
/// acceptance into a rejection. Whether the native library accepts the
/// proofs its own prover emits is the native library's contract, not stated
/// here.
pub proof fn lemma_accepted_verdict_is_native(
    proof: Seq<u8>,
    constraint_system: Seq<u8>,
    g2_data: Seq<u8>,
)
    requires
        proof.len() > 0,
        constraint_system.len() > 0,
        g2_data.len() > 0,
    ensures
        forall|native_accepts: bool|
            spec_verdict(proof, constraint_system, g2_data, native_accepts) == native_accepts,
{
}

} // verus!
