//! The credential store: one record of tokens per platform.
use vstd::prelude::*;

use crate::providers::spotify::connection::AccessTokenJson;
use crate::providers::Platform;

pub mod spotify;

verus! {

/// The store after `creds` is saved under `platform`.
pub open spec fn save_spec(
    store: Map<Platform, (Seq<char>, Seq<char>)>,
    platform: Platform,
    creds: (Seq<char>, Seq<char>),
) -> Map<Platform, (Seq<char>, Seq<char>)> {
    store.insert(platform, creds)
}

/// Saved credentials, at most one record per platform.
#[derive(Clone, Debug, Default)]
pub struct CredentialStore {
    pub spotify: Option<AccessTokenJson>,
    pub lastfm: Option<AccessTokenJson>,
}

impl CredentialStore {
    pub open spec fn slot(&self, platform: Platform) -> Option<AccessTokenJson> {
        match platform {
            Platform::Spotify => self.spotify,
            Platform::LastFM => self.lastfm,
        }
    }
}

impl View for CredentialStore {
    type V = Map<Platform, (Seq<char>, Seq<char>)>;

    open spec fn view(&self) -> Map<Platform, (Seq<char>, Seq<char>)> {
        Map::new(|p: Platform| self.slot(p) is Some, |p: Platform| self.slot(p)->0@)
    }
}

impl CredentialStore {
    /// A store with no record.
    pub fn new() -> (r: CredentialStore)
        ensures
            r@ == Map::<Platform, (Seq<char>, Seq<char>)>::empty(),
    {
        let r = CredentialStore { spotify: None, lastfm: None };
        assert(r@ =~= Map::<Platform, (Seq<char>, Seq<char>)>::empty());
        r
    }

    /// The record of `platform`, if there is one.
    pub fn load(&self, platform: Platform) -> (r: Option<AccessTokenJson>)
        ensures
            r is Some <==> self@.contains_key(platform),
            r is Some ==> r->0@ == self@[platform],
    {
        let slot = match platform {
            Platform::Spotify => &self.spotify,
            Platform::LastFM => &self.lastfm,
        };
        match slot {
            Some(creds) => Some(creds.copied()),
            None => None,
        }
    }

    /// Replaces the record of `platform` by `creds`.
    pub fn save(&mut self, platform: Platform, creds: AccessTokenJson)
        ensures
            final(self)@ == save_spec(old(self)@, platform, creds@),
    {
        let ghost c = creds@;
        match platform {
            Platform::Spotify => {
                self.spotify = Some(creds);
            },
            Platform::LastFM => {
                self.lastfm = Some(creds);
            },
        }
        assert(final(self)@ =~= save_spec(old(self)@, platform, c));
    }
}

/// Saving the same credentials twice leaves the store as one save does, and
/// loading then gives back what was saved.
pub proof fn lemma_save_twice_then_load(
    store: Map<Platform, (Seq<char>, Seq<char>)>,
    platform: Platform,
    creds: (Seq<char>, Seq<char>),
)
    ensures
        save_spec(save_spec(store, platform, creds), platform, creds) == save_spec(
            store,
            platform,
            creds,
        ),
        save_spec(save_spec(store, platform, creds), platform, creds).contains_key(platform),
        save_spec(save_spec(store, platform, creds), platform, creds)[platform] == creds,
{
    assert(save_spec(save_spec(store, platform, creds), platform, creds) =~= save_spec(
        store,
        platform,
        creds,
    ));
}

} // verus!
