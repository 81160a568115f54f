use vstd::prelude::*;

verus! {

/// Why the two-hop remote resolution failed; every variant is fatal.
#[derive(Clone, Copy, Debug, PartialEq, Eq, Structural)]
pub enum ResolveError {
    /// The describe-container-instances answer holds no record.
    NoContainerInstance,
    /// The first record carries no compute-instance identifier.
    MissingInstanceId,
    /// The describe-instance-information answer holds no record.
    NoInstanceInformation,
    /// The first record carries no computer name.
    MissingComputerName,
}

/// Picks the compute-instance identifier out of the describe-container-
/// instances answer: the first record's identifier; an empty answer or an
/// absent identifier is fatal.
pub fn first_instance_id(ids: Vec<Option<String>>) -> (r: Result<String, ResolveError>)
    ensures
        (r is Ok) <==> (ids@.len() > 0 && ids@[0] is Some),
        r matches Ok(id) ==> ids@.len() > 0 && (ids@[0] matches Some(s) && id == s),
        (r matches Err(ResolveError::NoContainerInstance)) <==> ids@.len() == 0,
        (r matches Err(ResolveError::MissingInstanceId)) <==> (ids@.len() > 0 && ids@[0] is None),
{
    let mut ids = ids;
    if ids.len() == 0 {
        return Err(ResolveError::NoContainerInstance);
    }
    match ids.remove(0) {
        Some(id) => Ok(id),
        None => Err(ResolveError::MissingInstanceId),
    }
}

/// Picks the hostname out of the describe-instance-information answer: the
/// first record's computer name; an empty answer or an absent name is fatal.
pub fn first_computer_name(names: Vec<Option<String>>) -> (r: Result<String, ResolveError>)
    ensures
        (r is Ok) <==> (names@.len() > 0 && names@[0] is Some),
        r matches Ok(h) ==> names@.len() > 0 && (names@[0] matches Some(s) && h == s),
        (r matches Err(ResolveError::NoInstanceInformation)) <==> names@.len() == 0,
        (r matches Err(ResolveError::MissingComputerName)) <==> (names@.len() > 0
            && names@[0] is None),
{
    let mut names = names;
    if names.len() == 0 {
        return Err(ResolveError::NoInstanceInformation);
    }
    match names.remove(0) {
        Some(h) => Ok(h),
        None => Err(ResolveError::MissingComputerName),
    }
}

} // verus!
