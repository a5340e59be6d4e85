use vstd::prelude::*;

verus! {

/// True when `name` occurs in the list `names`.
///
/// The storage-class lists are plain vectors carrying set semantics:
/// only membership matters, duplicates and order are irrelevant.
pub open spec fn class_name_in(names: Seq<String>, name: Seq<char>) -> bool {
    exists|i: int| 0 <= i < names.len() && names[i]@ == name
}

/// Linear scan deciding membership of `name` in `names`.
pub fn contains_class(names: &Vec<String>, name: &String) -> (found: bool)
    ensures
        found == class_name_in(names@, name@),
{
    let mut i: usize = 0;
    while i < names.len()
        invariant
            0 <= i <= names.len(),
            forall|j: int| 0 <= j < i ==> names@[j]@ != name@,
        decreases names.len() - i,
    {
        if names[i] == *name {
            return true;
        }
        i += 1;
    }
    false
}

/// A raw, not yet validated policy configuration, exactly as the host
/// supplies it: two optional lists of storage-class names, of which a
/// valid configuration fills exactly one, and an optional fallback class.
pub struct Settings {
    pub denied_storage_classes: Option<Vec<String>>,
    pub allowed_storage_classes: Option<Vec<String>>,
    pub fallback_storage_class: Option<String>,
}

/// The configuration invariant a raw `Settings` value broke, one variant
/// per distinct diagnostic.
#[derive(Debug)]
pub enum ValidationError {
    /// Neither the denied nor the allowed list is given.
    MissingClassList,
    /// Both the denied and the allowed list are given.
    BothClassLists,
    /// The denied list is given but empty.
    EmptyDeniedList,
    /// The allowed list is given but empty.
    EmptyAllowedList,
    /// The fallback class is a member of the denied list.
    FallbackInDeniedList,
    /// The fallback class is not a member of the allowed list.
    FallbackNotInAllowedList,
}

impl ValidationError {
    /// The fixed diagnostic text of this error.
    pub open spec fn spec_message(&self) -> Seq<char> {
        match self {
            ValidationError::MissingClassList => "One of deniedStorageClasses or allowedStorageClasses must be set"@,
            ValidationError::BothClassLists => "Only one of deniedStorageClasses or allowedStorageClasses can be set"@,
            ValidationError::EmptyDeniedList => "deniedStorageClasses cannot be empty"@,
            ValidationError::EmptyAllowedList => "allowedStorageClasses cannot be empty"@,
            ValidationError::FallbackInDeniedList => "fallbackStorageClass cannot be in deniedStorageClasses"@,
            ValidationError::FallbackNotInAllowedList => "fallbackStorageClass must be in allowedStorageClasses"@,
        }
    }

    /// Renders the fixed diagnostic text of this error.
    pub fn message(&self) -> (text: String)
        ensures
            text@ == self.spec_message(),
    {
        match self {
            ValidationError::MissingClassList => "One of deniedStorageClasses or allowedStorageClasses must be set".to_owned(),
            ValidationError::BothClassLists => "Only one of deniedStorageClasses or allowedStorageClasses can be set".to_owned(),
            ValidationError::EmptyDeniedList => "deniedStorageClasses cannot be empty".to_owned(),
            ValidationError::EmptyAllowedList => "allowedStorageClasses cannot be empty".to_owned(),
            ValidationError::FallbackInDeniedList => "fallbackStorageClass cannot be in deniedStorageClasses".to_owned(),
            ValidationError::FallbackNotInAllowedList => "fallbackStorageClass must be in allowedStorageClasses".to_owned(),
        }
    }
}

/// The mode of a validated configuration: exactly one of a deny list or
/// an allow list of storage-class names.
pub enum PolicyMode {
    DenyList(Vec<String>),
    AllowList(Vec<String>),
}

/// A validated policy configuration.
///
/// Values satisfying `wf` arise from `Settings::validate`, whose `Ok`
/// results carry every invariant the decision engine relies on.
pub struct PolicyConfiguration {
    pub mode: PolicyMode,
    pub fallback_storage_class: Option<String>,
}

impl PolicyConfiguration {
    /// The storage-class names of the active list, whichever mode holds them.
    pub open spec fn class_names(&self) -> Seq<String> {
        match self.mode {
            PolicyMode::DenyList(names) => names@,
            PolicyMode::AllowList(names) => names@,
        }
    }

    /// The configuration invariants: the active list is non-empty, a
    /// fallback never sits in the deny list, and a fallback always sits
    /// in the allow list.
    pub open spec fn wf(&self) -> bool {
        &&& self.class_names().len() > 0
        &&& (self.fallback_storage_class matches Some(f) ==> match self.mode {
            PolicyMode::DenyList(names) => !class_name_in(names@, f@),
            PolicyMode::AllowList(names) => class_name_in(names@, f@),
        })
    }

    /// Decides whether the configuration invariants hold, so that an
    /// unverified caller can guard the decision engine's precondition.
    pub fn is_well_formed(&self) -> (well_formed: bool)
        ensures
            well_formed == self.wf(),
    {
        let names = match &self.mode {
            PolicyMode::DenyList(names) => names,
            PolicyMode::AllowList(names) => names,
        };
        if names.len() == 0 {
            return false;
        }
        match &self.fallback_storage_class {
            Some(fallback) => match &self.mode {
                PolicyMode::DenyList(denied) => !contains_class(denied, fallback),
                PolicyMode::AllowList(allowed) => contains_class(allowed, fallback),
            },
            None => true,
        }
    }
}

impl Settings {
    /// The first violated check, in the fixed order the checks run in,
    /// or `None` for a consistent configuration.
    pub open spec fn validation_outcome(&self) -> Option<ValidationError> {
        if self.denied_storage_classes is None && self.allowed_storage_classes is None {
            Some(ValidationError::MissingClassList)
        } else if self.denied_storage_classes is Some && self.allowed_storage_classes is Some {
            Some(ValidationError::BothClassLists)
        } else {
            match self.denied_storage_classes {
                Some(denied) => if denied@.len() == 0 {
                    Some(ValidationError::EmptyDeniedList)
                } else {
                    match self.fallback_storage_class {
                        Some(fallback) => if class_name_in(denied@, fallback@) {
                            Some(ValidationError::FallbackInDeniedList)
                        } else {
                            None
                        },
                        None => None,
                    }
                },
                None => match self.allowed_storage_classes {
                    Some(allowed) => if allowed@.len() == 0 {
                        Some(ValidationError::EmptyAllowedList)
                    } else {
                        match self.fallback_storage_class {
                            Some(fallback) => if !class_name_in(allowed@, fallback@) {
                                Some(ValidationError::FallbackNotInAllowedList)
                            } else {
                                None
                            },
                            None => None,
                        }
                    },
                    None => None,
                },
            }
        }
    }

    /// Checks the raw configuration and, when every invariant holds,
    /// builds the validated configuration the decision engine takes.
    ///
    /// The checks run in a fixed order and the first violated one names
    /// the error, so the diagnostic for a given configuration is
    /// deterministic. An `Ok` result reproduces the active list and the
    /// fallback of the input exactly.
    pub fn validate(self) -> (result: Result<PolicyConfiguration, ValidationError>)
        ensures
            match result {
                Result::Ok(config) => {
                    &&& self.validation_outcome() is None
                    &&& (self.denied_storage_classes matches Some(denied)
                        ==> config.mode == PolicyMode::DenyList(denied))
                    &&& (self.allowed_storage_classes matches Some(allowed)
                        ==> config.mode == PolicyMode::AllowList(allowed))
                    &&& config.fallback_storage_class == self.fallback_storage_class
                    &&& config.wf()
                },
                Result::Err(e) => self.validation_outcome() == Some(e),
            },
    {
        if self.denied_storage_classes.is_none() && self.allowed_storage_classes.is_none() {
            return Err(ValidationError::MissingClassList);
        }
        if self.denied_storage_classes.is_some() && self.allowed_storage_classes.is_some() {
            return Err(ValidationError::BothClassLists);
        }

        if let Some(denied) = self.denied_storage_classes {
            if denied.len() == 0 {
                return Err(ValidationError::EmptyDeniedList);
            }
            if let Some(fallback) = &self.fallback_storage_class {
                if contains_class(&denied, fallback) {
                    return Err(ValidationError::FallbackInDeniedList);
                }
            }
            return Ok(PolicyConfiguration {
                mode: PolicyMode::DenyList(denied),
                fallback_storage_class: self.fallback_storage_class,
            });
        }

        // One of the two lists is present and it is not the denied one.
        let allowed = self.allowed_storage_classes.unwrap();
        if allowed.len() == 0 {
            return Err(ValidationError::EmptyAllowedList);
        }
        if let Some(fallback) = &self.fallback_storage_class {
            if !contains_class(&allowed, fallback) {
                return Err(ValidationError::FallbackNotInAllowedList);
            }
        }
        Ok(PolicyConfiguration {
            mode: PolicyMode::AllowList(allowed),
            fallback_storage_class: self.fallback_storage_class,
        })
    }
}

} // verus!
