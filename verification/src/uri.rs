//! The parts of a uProtocol URI that the transport reads and builds.

use crate::{AuthorityName, UeId};
use vstd::prelude::*;
use vstd::string::StringExecFns;

verus! {

/// The wildcard authority name.
pub open spec fn wildcard_authority() -> Seq<char> {
    seq!['*']
}

/// A uProtocol URI: authority, uEntity id (instance in the high half, type in the low
/// half), uEntity major version and resource id.
#[derive(Clone, Debug, PartialEq, Eq)]
pub struct Uri {
    pub authority_name: String,
    pub ue_id: u32,
    pub ue_version_major: u32,
    pub resource_id: u32,
}

/// The value of a URI, with the authority name as a sequence of characters.
pub struct UriView {
    pub authority_name: Seq<char>,
    pub ue_id: u32,
    pub ue_version_major: u32,
    pub resource_id: u32,
}

impl View for Uri {
    type V = UriView;

    open spec fn view(&self) -> UriView {
        UriView {
            authority_name: self.authority_name@,
            ue_id: self.ue_id,
            ue_version_major: self.ue_version_major,
            resource_id: self.resource_id,
        }
    }
}

/// The view of an optional URI.
pub open spec fn opt_uri_view(u: Option<Uri>) -> Option<UriView> {
    match u {
        Some(x) => Some(x@),
        None => None,
    }
}

impl UriView {
    /// The authority name is the wildcard `*`.
    pub open spec fn has_wildcard_authority(self) -> bool {
        self.authority_name == wildcard_authority()
    }

    /// The uEntity instance (the high half of the uEntity id) is the wildcard `0xFFFF`.
    pub open spec fn has_wildcard_entity_instance(self) -> bool {
        self.ue_id / 0x1_0000 == 0xFFFF
    }

    /// The uEntity type (the low half of the uEntity id) is the wildcard `0xFFFF`.
    pub open spec fn has_wildcard_entity_type(self) -> bool {
        self.ue_id % 0x1_0000 == 0xFFFF
    }

    /// The major version is the wildcard `0xFF`.
    pub open spec fn has_wildcard_version(self) -> bool {
        self.ue_version_major == 0xFF
    }

    /// The resource id is the wildcard `0xFFFF`.
    pub open spec fn has_wildcard_resource_id(self) -> bool {
        self.resource_id == 0xFFFF
    }

    /// Some part of the URI is a wildcard.
    pub open spec fn has_any_wildcard(self) -> bool {
        ||| self.has_wildcard_authority()
        ||| self.has_wildcard_entity_instance()
        ||| self.has_wildcard_entity_type()
        ||| self.has_wildcard_version()
        ||| self.has_wildcard_resource_id()
    }
}

/// Tells whether an authority name is the wildcard authority.
pub fn is_wildcard_authority(authority_name: &String) -> (b: bool)
    ensures
        b == (authority_name@ == wildcard_authority()),
{
    let star = String::from_str("*");
    proof {
        reveal_strlit("*");
        assert(star@ =~= wildcard_authority());
    }
    *authority_name == star
}

impl Uri {
    /// Whether the authority is the wildcard authority `*`.
    pub fn has_wildcard_authority(&self) -> (b: bool)
        ensures
            b == self@.has_wildcard_authority(),
    {
        is_wildcard_authority(&self.authority_name)
    }

    /// Whether the uEntity instance (high half of `ue_id`) is the wildcard `0xFFFF`.
    pub fn has_wildcard_entity_instance(&self) -> (b: bool)
        ensures
            b == self@.has_wildcard_entity_instance(),
    {
        let ue_id = self.ue_id;
        let b = ue_id & 0xFFFF_0000 == 0xFFFF_0000;
        assert(b == (ue_id / 0x1_0000 == 0xFFFF)) by (bit_vector)
            requires b == (ue_id & 0xFFFF_0000 == 0xFFFF_0000);
        b
    }

    /// Whether the uEntity type (low half of `ue_id`) is the wildcard `0xFFFF`.
    pub fn has_wildcard_entity_type(&self) -> (b: bool)
        ensures
            b == self@.has_wildcard_entity_type(),
    {
        let ue_id = self.ue_id;
        let b = ue_id & 0x0000_FFFF == 0x0000_FFFF;
        assert(b == (ue_id % 0x1_0000 == 0xFFFF)) by (bit_vector)
            requires b == (ue_id & 0x0000_FFFF == 0x0000_FFFF);
        b
    }

    /// Whether the major version is the wildcard `0xFF`.
    pub fn has_wildcard_version(&self) -> (b: bool)
        ensures
            b == self@.has_wildcard_version(),
    {
        self.ue_version_major == 0xFF
    }

    /// Whether the resource id is the wildcard `0xFFFF`.
    pub fn has_wildcard_resource_id(&self) -> (b: bool)
        ensures
            b == self@.has_wildcard_resource_id(),
    {
        self.resource_id == 0xFFFF
    }

    /// Refuses a URI that holds any wildcard.
    pub fn verify_no_wildcards(&self) -> (r: Result<(), ()>)
        ensures
            r is Ok <==> !self@.has_any_wildcard(),
    {
        if self.has_wildcard_authority() || self.has_wildcard_entity_instance()
            || self.has_wildcard_entity_type() || self.has_wildcard_version()
            || self.has_wildcard_resource_id() {
            Err(())
        } else {
            Ok(())
        }
    }

    /// A copy of this URI.
    pub fn clone_uri(&self) -> (u: Uri)
        ensures
            u@ == self@,
    {
        Uri {
            authority_name: self.authority_name.clone(),
            ue_id: self.ue_id,
            ue_version_major: self.ue_version_major,
            resource_id: self.resource_id,
        }
    }

    /// This URI with its resource id replaced.
    pub fn with_resource_id(&self, resource_id: u16) -> (u: Uri)
        ensures
            u@ == (UriView { resource_id: resource_id as u32, ..self@ }),
    {
        Uri {
            authority_name: self.authority_name.clone(),
            ue_id: self.ue_id,
            ue_version_major: self.ue_version_major,
            resource_id: resource_id as u32,
        }
    }
}

/// The URI that matches any authority, any uEntity type, any major version and any resource.
pub open spec fn spec_any_uuri() -> UriView {
    UriView {
        authority_name: wildcard_authority(),
        ue_id: 0x0000_FFFF,
        ue_version_major: 0xFF,
        resource_id: 0xFFFF,
    }
}

/// The URI that matches any URI: wildcard authority, uEntity type `0xFFFF`, version `0xFF`
/// and resource `0xFFFF`.
pub fn any_uuri() -> (u: Uri)
    ensures
        u@ == spec_any_uuri(),
{
    let authority_name = String::from_str("*");
    proof {
        reveal_strlit("*");
        assert(authority_name@ =~= wildcard_authority());
    }
    Uri { authority_name, ue_id: 0x0000_FFFF, ue_version_major: 0xFF, resource_id: 0xFFFF }
}

/// A URI of a given authority and uEntity, with wildcard version and resource.
pub fn any_uuri_fixed_authority_id(authority_name: &AuthorityName, ue_id: UeId) -> (u: Uri)
    ensures
        u@ == (UriView {
            authority_name: authority_name@,
            ue_id: ue_id as u32,
            ue_version_major: 0xFF,
            resource_id: 0xFFFF,
        }),
{
    Uri {
        authority_name: authority_name.clone(),
        ue_id: ue_id as u32,
        ue_version_major: 0xFF,
        resource_id: 0xFFFF,
    }
}

} // verus!
