//! Owner and group names, with the numeric id as the fallback.
use crate::text::{decimal, decimal_string};
use vstd::prelude::*;

verus! {

/// The owner or group field: the name found in the identity database, or the
/// decimal numeral of the id when none was found.
pub open spec fn name_field(found: Option<Seq<char>>, id: u32) -> Seq<char> {
    match found {
        Some(name) => name,
        None => decimal(id as nat),
    }
}

/// The view of a looked-up name.
pub open spec fn found_view(found: Option<String>) -> Option<Seq<char>> {
    match found {
        Some(name) => Some(name@),
        None => None,
    }
}

/// Relies on users::get_user_by_uid and `User::name` (converted lossily to a
/// `String`). The answer depends on the system's user database, so nothing is
/// stated of it.
#[verifier::external_body]
fn lookup_user_name(uid: u32) -> (r: Option<String>) {
    users::get_user_by_uid(uid).map(|u| u.name().to_string_lossy().into_owned())
}

/// Relies on users::get_group_by_gid and `Group::name` (converted lossily to a
/// `String`). The answer depends on the system's group database, so nothing is
/// stated of it.
#[verifier::external_body]
fn lookup_group_name(gid: u32) -> (r: Option<String>) {
    users::get_group_by_gid(gid).map(|g| g.name().to_string_lossy().into_owned())
}

/// The field for `id` given what the lookup found: the name itself, or the
/// decimal numeral of `id` when the lookup found nothing.
pub fn name_or_id(found: Option<String>, id: u32) -> (r: String)
    ensures
        r@ == name_field(found_view(found), id),
{
    match found {
        Some(name) => name,
        None => decimal_string(id as u64),
    }
}

/// The owner and group fields of an entry owned by `uid` and `gid`. Each is
/// whatever the identity database answers passed through [`name_or_id`], so a
/// lookup that finds nothing gives the decimal numeral of the id.
pub fn get_owner_and_group(uid: u32, gid: u32) -> (r: (String, String))
    ensures
        exists|user: Option<Seq<char>>, group: Option<Seq<char>>|
            r.0@ == name_field(user, uid) && r.1@ == name_field(group, gid),
{
    let user_found = lookup_user_name(uid);
    let group_found = lookup_group_name(gid);
    let ghost u = found_view(user_found);
    let ghost g = found_view(group_found);
    let user = name_or_id(user_found, uid);
    let group = name_or_id(group_found, gid);
    assert(user@ == name_field(u, uid) && group@ == name_field(g, gid));
    (user, group)
}

} // verus!
