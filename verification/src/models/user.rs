//! The user profile that the profile endpoint passes through, field for field
//! as the upstream service sends it.

use vstd::prelude::*;

verus! {

pub struct User {
    pub id: i32,
    pub name: String,
    pub username: String,
    pub email: String,
    pub address: Address,
    pub phone: String,
    pub website: String,
    pub company: Company,
}

pub struct Address {
    pub street: String,
    pub suite: String,
    pub city: String,
    pub zipcode: String,
    pub geo: Geo,
}

pub struct Geo {
    pub lat: String,
    pub lng: String,
}

pub struct Company {
    pub name: String,
    /// Sent as `catchPhrase`.
    pub catch_phrase: String,
    pub bs: String,
}

} // verus!
