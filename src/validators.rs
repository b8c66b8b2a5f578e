//! Checks on user-supplied values.
use vstd::prelude::*;
use crate::error::LazyJiraError;
use crate::text::{contains_char, is_blank, is_blank_str};

verus! {

/// An instance must be non-blank and look like a domain (contain a dot).
pub fn validate_instance(instance: &str) -> (r: Result<(), LazyJiraError>)
    ensures
        r is Ok <==> !is_blank(instance@) && instance@.contains('.'),
        r matches Err(e) ==> e is Validation,
        r matches Err(e) ==> e.detail_spec() == if is_blank(instance@) {
            "Instance cannot be empty"@
        } else {
            "Instance must be a valid domain"@
        },
{
    if is_blank_str(instance) {
        return Err(LazyJiraError::Validation(String::from_str("Instance cannot be empty")));
    }
    if !contains_char(instance, '.') {
        return Err(LazyJiraError::Validation(String::from_str("Instance must be a valid domain")));
    }
    Ok(())
}

/// A ticket key must be non-blank and of the form PROJECT-NUMBER (contain a
/// dash).
pub fn validate_ticket_key(key: &str) -> (r: Result<(), LazyJiraError>)
    ensures
        r is Ok <==> !is_blank(key@) && key@.contains('-'),
        r matches Err(e) ==> e is Validation,
        r matches Err(e) ==> e.detail_spec() == if is_blank(key@) {
            "Ticket key cannot be empty"@
        } else {
            "Ticket key must be in format PROJECT-NUMBER"@
        },
{
    if is_blank_str(key) {
        return Err(LazyJiraError::Validation(String::from_str("Ticket key cannot be empty")));
    }
    if !contains_char(key, '-') {
        return Err(
            LazyJiraError::Validation(String::from_str("Ticket key must be in format PROJECT-NUMBER")),
        );
    }
    Ok(())
}

} // verus!
