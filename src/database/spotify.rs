//! The Spotify record of the credential store.
use vstd::prelude::*;

use crate::database::{save_spec, CredentialStore};
use crate::providers::spotify::connection::AccessTokenJson;
use crate::providers::Platform;

verus! {

/// The stored Spotify credentials, if any.
pub fn get_creds(store: &CredentialStore) -> (r: Option<AccessTokenJson>)
    ensures
        r is Some <==> store@.contains_key(Platform::Spotify),
        r is Some ==> r->0@ == store@[Platform::Spotify],
{
    store.load(Platform::Spotify)
}

/// Stores `creds` as the Spotify credentials.
pub fn set_creds(store: &mut CredentialStore, creds: AccessTokenJson)
    ensures
        final(store)@ == save_spec(old(store)@, Platform::Spotify, creds@),
{
    store.save(Platform::Spotify, creds)
}

} // verus!
