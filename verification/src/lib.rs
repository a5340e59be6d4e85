use vstd::prelude::*;

pub mod settings;

use settings::{class_name_in, contains_class, PolicyConfiguration, PolicyMode};

verus! {

use vstd::string::StringExecFns;

/// The one resource shape the policy has an opinion on: a volume claim.
///
/// Only the storage-class selector steers the decision; everything else
/// the claim carries rides along untouched in `rest`, whose type the
/// caller chooses.
pub struct VolumeClaim<R> {
    /// The claim's storage-class selector; `None` counts as the
    /// empty-string class.
    pub storage_class_name: Option<String>,
    /// Every other field of the claim, opaque to the policy.
    pub rest: R,
}

/// One admission request, as handed to the decision engine.
pub enum ResourceRequest<R> {
    /// The request carries a volume claim.
    VolumeClaim(VolumeClaim<R>),
    /// The request carries some other resource; the policy has no
    /// opinion on it and passes it through.
    Unrecognized,
}

/// The decision engine's output.
pub enum Verdict<R> {
    /// The request is allowed unchanged.
    Accept,
    /// The request is blocked; the message names the offending class.
    Reject(String),
    /// The request is allowed with the rewritten claim in place of the
    /// original one.
    Mutate(VolumeClaim<R>),
}

/// The class name a claim asks for: its selector, or the empty string
/// when the selector is absent.
pub open spec fn requested_class<R>(claim: VolumeClaim<R>) -> Seq<char> {
    match claim.storage_class_name {
        Some(name) => name@,
        None => Seq::<char>::empty(),
    }
}

/// True when the configuration blocks the class `name`: the deny list
/// contains it, or the allow list does not.
pub open spec fn blocked(config: PolicyConfiguration, name: Seq<char>) -> bool {
    match config.mode {
        PolicyMode::DenyList(denied) => class_name_in(denied@, name),
        PolicyMode::AllowList(allowed) => !class_name_in(allowed@, name),
    }
}

/// The rejection message for the class `name`, which may be empty.
pub open spec fn rejection_message(name: Seq<char>) -> Seq<char> {
    "storage class \""@ + name + "\" is not allowed"@
}

/// Copies the claim with its storage-class selector replaced by the
/// fallback class; every other field is preserved.
pub fn mutate_pvc<R>(pvc: VolumeClaim<R>, fallback_storage_class: &String) -> (mutated: VolumeClaim<R>)
    ensures
        mutated.storage_class_name == Some(*fallback_storage_class),
        mutated.rest == pvc.rest,
{
    VolumeClaim {
        storage_class_name: Some(fallback_storage_class.clone()),
        rest: pvc.rest,
    }
}

/// Resolves the blocked path: rewrites the claim to the fallback class
/// when one is configured, and otherwise rejects, naming the class the
/// claim asked for.
pub fn mutate_or_reject<R>(
    pvc: VolumeClaim<R>,
    storage_class_name: String,
    fallback_storage_class: Option<&String>,
) -> (verdict: Verdict<R>)
    ensures
        match fallback_storage_class {
            Some(fallback) => {
                &&& verdict matches Verdict::Mutate(mutated)
                &&& mutated.storage_class_name == Some(*fallback)
                &&& mutated.rest == pvc.rest
            },
            None => {
                &&& verdict matches Verdict::Reject(message)
                &&& message@ == rejection_message(storage_class_name@)
            },
        },
{
    match fallback_storage_class {
        Some(fallback) => Verdict::Mutate(mutate_pvc(pvc, fallback)),
        None => {
            let mut message = String::from_str("storage class \"");
            message.append(storage_class_name.as_str());
            message.append("\" is not allowed");
            Verdict::Reject(message)
        },
    }
}

/// Applies allow-list mode: a listed class is accepted, any other class
/// takes the blocked path.
pub fn validate_allowed_classes<R>(
    pvc: VolumeClaim<R>,
    storage_class_name: String,
    allowed_storage_classes: &Vec<String>,
    fallback_storage_class: Option<&String>,
) -> (verdict: Verdict<R>)
    ensures
        class_name_in(allowed_storage_classes@, storage_class_name@) ==> verdict is Accept,
        !class_name_in(allowed_storage_classes@, storage_class_name@) ==> match fallback_storage_class {
            Some(fallback) => {
                &&& verdict matches Verdict::Mutate(mutated)
                &&& mutated.storage_class_name == Some(*fallback)
                &&& mutated.rest == pvc.rest
            },
            None => {
                &&& verdict matches Verdict::Reject(message)
                &&& message@ == rejection_message(storage_class_name@)
            },
        },
{
    if contains_class(allowed_storage_classes, &storage_class_name) {
        return Verdict::Accept;
    }
    mutate_or_reject(pvc, storage_class_name, fallback_storage_class)
}

/// Applies deny-list mode: a listed class takes the blocked path, any
/// other class is accepted.
pub fn validate_denied_classes<R>(
    pvc: VolumeClaim<R>,
    storage_class_name: String,
    denied_storage_classes: &Vec<String>,
    fallback_storage_class: Option<&String>,
) -> (verdict: Verdict<R>)
    ensures
        !class_name_in(denied_storage_classes@, storage_class_name@) ==> verdict is Accept,
        class_name_in(denied_storage_classes@, storage_class_name@) ==> match fallback_storage_class {
            Some(fallback) => {
                &&& verdict matches Verdict::Mutate(mutated)
                &&& mutated.storage_class_name == Some(*fallback)
                &&& mutated.rest == pvc.rest
            },
            None => {
                &&& verdict matches Verdict::Reject(message)
                &&& message@ == rejection_message(storage_class_name@)
            },
        },
{
    if contains_class(denied_storage_classes, &storage_class_name) {
        return mutate_or_reject(pvc, storage_class_name, fallback_storage_class);
    }
    Verdict::Accept
}

/// Decides one admission request under a validated configuration.
///
/// A request that is not a volume claim is passed through. A claim
/// whose class the configuration does not block is accepted unchanged.
/// A blocked claim is rewritten to the fallback class when one is
/// configured, and otherwise rejected with a message naming the class
/// it asked for.
pub fn decide<R>(config: &PolicyConfiguration, request: ResourceRequest<R>) -> (verdict: Verdict<R>)
    requires
        config.wf(),
    ensures
        request is Unrecognized ==> verdict is Accept,
        request matches ResourceRequest::VolumeClaim(claim) ==> {
            &&& (!blocked(*config, requested_class(claim)) ==> verdict is Accept)
            &&& (blocked(*config, requested_class(claim)) ==> match config.fallback_storage_class {
                Some(fallback) => {
                    &&& verdict matches Verdict::Mutate(mutated)
                    &&& mutated.storage_class_name == Some(fallback)
                    &&& mutated.rest == claim.rest
                },
                None => {
                    &&& verdict matches Verdict::Reject(message)
                    &&& message@ == rejection_message(requested_class(claim))
                },
            })
        },
{
    let claim = match request {
        ResourceRequest::VolumeClaim(claim) => claim,
        ResourceRequest::Unrecognized => {
            return Verdict::Accept;
        },
    };

    let storage_class_name: String = match &claim.storage_class_name {
        Some(name) => name.clone(),
        None => String::new(),
    };

    match &config.mode {
        PolicyMode::AllowList(allowed) => validate_allowed_classes(
            claim,
            storage_class_name,
            allowed,
            config.fallback_storage_class.as_ref(),
        ),
        PolicyMode::DenyList(denied) => validate_denied_classes(
            claim,
            storage_class_name,
            denied,
            config.fallback_storage_class.as_ref(),
        ),
    }
}

/// Rewriting is idempotent: a claim rewritten by a `Mutate` verdict
/// carries the fallback class, which the configuration invariants place
/// on the safe side of the active list, so deciding on the rewritten
/// claim always yields `Accept`.
pub proof fn lemma_mutation_idempotent<R>(config: PolicyConfiguration, mutated: VolumeClaim<R>)
    requires
        config.wf(),
        config.fallback_storage_class matches Some(fallback)
            && mutated.storage_class_name == Some(fallback),
    ensures
        !blocked(config, requested_class(mutated)),
{
}

} // verus!
