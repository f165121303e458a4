//! The generic data-model objects every cluster shares: attribute
//! descriptors, the immutable cluster schema descriptor, and the request
//! plumbing (attribute addressing, write payloads, encoders) that carries a
//! caller's known data version through the with-dataver gates.

use vstd::prelude::*;

use crate::codec::encode_attr_ids;
use crate::codec::encode_u32;
use crate::codec::encoded_attr_id_list;
use crate::codec::encoded_u32;
use crate::error::Error;

verus! {

/// The universal feature-map attribute id, present on every cluster.
pub const FEATURE_MAP_ID: u16 = 0xFFFC;

/// The universal attribute-list attribute id, present on every cluster.
pub const ATTRIBUTE_LIST_ID: u16 = 0xFFFB;

/// Whether an attribute id names one of the two universal system attributes,
/// resolved generically from the schema descriptor rather than from a
/// cluster's codec registry.
pub open spec fn is_system_attr(id: u16) -> bool {
    id == FEATURE_MAP_ID || id == ATTRIBUTE_LIST_ID
}

/// Whether a caller-known data version is stale against the current one:
/// only a supplied, differing version mismatches; an absent one never does.
pub open spec fn version_mismatch(known: Option<u32>, current: u32) -> bool {
    known is Some && known != Some(current)
}

/// Access rights of one attribute.
#[derive(Clone, Copy, Debug, PartialEq, Eq, Structural)]
pub struct Access {
    pub read: bool,
    pub write: bool,
}

/// Quality flags of one attribute.
#[derive(Clone, Copy, Debug, PartialEq, Eq, Structural)]
pub struct Quality {
    /// The attribute participates in scenes.
    pub scene: bool,
    /// The attribute's value survives a restart.
    pub persistent: bool,
}

/// One attribute descriptor of a cluster schema: id, access rights and
/// quality flags.
#[derive(Clone, Copy, Debug, PartialEq, Eq, Structural)]
pub struct Attribute {
    pub id: u16,
    pub access: Access,
    pub quality: Quality,
}

impl Attribute {
    /// A descriptor with the given id, access rights and quality flags.
    pub fn new(id: u16, access: Access, quality: Quality) -> (r: Self)
        ensures
            r.id == id,
            r.access == access,
            r.quality == quality,
    {
        Attribute { id, access, quality }
    }
}

/// The first declared attribute with the given id, in schema order.
pub open spec fn spec_find_attr(attrs: Seq<Attribute>, id: u16) -> Option<Attribute>
    decreases attrs.len(),
{
    if attrs.len() == 0 {
        None
    } else if attrs[0].id == id {
        Some(attrs[0])
    } else {
        spec_find_attr(attrs.skip(1), id)
    }
}

/// The immutable schema descriptor of one cluster type: its identifier, its
/// feature bitmap, its declared attributes and its declared command ids. It
/// is built once and shared read-only by every instance of the cluster type.
pub struct Cluster {
    pub id: u32,
    pub feature_map: u32,
    pub attributes: Vec<Attribute>,
    pub commands: Vec<u32>,
}

impl Cluster {
    /// All declared attribute ids, in schema order.
    pub open spec fn attr_ids(&self) -> Seq<u16> {
        self.attributes@.map_values(|a: Attribute| a.id)
    }

    /// The declared attribute ids as a vector, in schema order.
    pub fn attr_id_list(&self) -> (r: Vec<u16>)
        ensures
            r@ == self.attr_ids(),
    {
        let mut r: Vec<u16> = Vec::new();
        let mut i: usize = 0;
        while i < self.attributes.len()
            invariant
                i <= self.attributes@.len(),
                r@.len() == i,
                forall|j: int| 0 <= j < i ==> r@[j] == self.attributes@[j].id,
            decreases self.attributes@.len() - i,
        {
            r.push(self.attributes[i].id);
            i += 1;
        }
        proof {
            assert(r@ =~= self.attr_ids());
        }
        r
    }

    /// Look up the declared attribute with the given id.
    pub fn attribute(&self, id: u16) -> (r: Option<Attribute>)
        ensures
            r == spec_find_attr(self.attributes@, id),
    {
        let mut i: usize = 0;
        proof {
            assert(self.attributes@.skip(0) =~= self.attributes@);
        }
        while i < self.attributes.len()
            invariant
                i <= self.attributes@.len(),
                spec_find_attr(self.attributes@, id) == spec_find_attr(
                    self.attributes@.skip(i as int),
                    id,
                ),
            decreases self.attributes@.len() - i,
        {
            let a = self.attributes[i];
            proof {
                assert(self.attributes@.skip(i as int)[0] == self.attributes@[i as int]);
                assert(self.attributes@.skip(i as int).skip(1) =~= self.attributes@.skip(
                    i as int + 1,
                ));
            }
            if a.id == id {
                return Some(a);
            }
            i += 1;
        }
        proof {
            assert(self.attributes@.skip(self.attributes@.len() as int) =~= Seq::<
                Attribute,
            >::empty());
        }
        None
    }

    /// Read one of the universal system attributes generically from the
    /// descriptor: the feature bitmap, or the full attribute-id list. Any
    /// other id is not a system attribute and is refused.
    pub fn read(&self, attr_id: u16, encoder: &mut AttrDataEncoder) -> (r: Result<(), Error>)
        ensures
            final(encoder).spec_dataver() == old(encoder).spec_dataver(),
            r is Ok <==> is_system_attr(attr_id),
            attr_id == FEATURE_MAP_ID ==> final(encoder).spec_out() == Some(
                encoded_u32(self.feature_map),
            ),
            attr_id == ATTRIBUTE_LIST_ID ==> final(encoder).spec_out() == Some(
                encoded_attr_id_list(self.attr_ids()),
            ),
            r is Err ==> r == Err::<(), Error>(Error::UnsupportedAttribute)
                && final(encoder).spec_out() == old(encoder).spec_out(),
    {
        if attr_id == FEATURE_MAP_ID {
            let bytes = encode_u32(self.feature_map);
            encoder.set(bytes);
            Ok(())
        } else if attr_id == ATTRIBUTE_LIST_ID {
            let ids = self.attr_id_list();
            let bytes = encode_attr_ids(&ids);
            encoder.set(bytes);
            Ok(())
        } else {
            Err(Error::UnsupportedAttribute)
        }
    }
}

/// The addressing of one attribute request.
pub struct AttrDetails {
    /// The requested attribute id.
    pub attr_id: u16,
}

impl AttrDetails {
    /// Whether the request addresses a universal system attribute.
    pub fn is_system(&self) -> (r: bool)
        ensures
            r == is_system_attr(self.attr_id),
    {
        self.attr_id == FEATURE_MAP_ID || self.attr_id == ATTRIBUTE_LIST_ID
    }
}

/// Encoder for one attribute read: carries the caller's known data version
/// in, and the encoded output (if the read produced any) out.
pub struct AttrDataEncoder {
    dataver: Option<u32>,
    out: Option<Vec<u8>>,
}

impl AttrDataEncoder {
    /// The caller's known data version, if it supplied one.
    pub closed spec fn spec_dataver(&self) -> Option<u32> {
        self.dataver
    }

    /// The output recorded so far, if any.
    pub closed spec fn spec_out(&self) -> Option<Seq<u8>> {
        match self.out {
            Some(v) => Some(v@),
            None => None,
        }
    }

    /// A fresh encoder for one read request, with no output yet.
    pub fn new(dataver: Option<u32>) -> (r: Self)
        ensures
            r.spec_dataver() == dataver,
            r.spec_out() is None,
    {
        AttrDataEncoder { dataver, out: None }
    }

    /// The with-dataver gate of the read path: encoding proceeds only when
    /// the caller supplied no known version or a version that differs from
    /// the cluster's current one. On a match the caller's cached copy is
    /// current and nothing needs to be written.
    pub fn with_dataver(&self, dataver: u32) -> (proceed: bool)
        ensures
            proceed <==> self.spec_dataver() != Some(dataver),
    {
        match self.dataver {
            Some(known) => known != dataver,
            None => true,
        }
    }

    /// Record the encoded value of the read attribute.
    pub fn set(&mut self, data: Vec<u8>)
        ensures
            final(self).spec_dataver() == old(self).spec_dataver(),
            final(self).spec_out() == Some(data@),
    {
        self.out = Some(data);
    }

    /// Hand the recorded output to the layer that frames the response.
    pub fn take_output(self) -> (r: Option<Vec<u8>>)
        ensures
            match r {
                Some(v) => self.spec_out() == Some(v@),
                None => self.spec_out() is None,
            },
    {
        self.out
    }
}

/// Payload of one attribute write: the encoded value and the caller's known
/// data version, if it supplied one.
pub struct AttrData {
    dataver: Option<u32>,
    data: Vec<u8>,
}

impl AttrData {
    /// The caller's known data version, if it supplied one.
    pub closed spec fn spec_dataver(&self) -> Option<u32> {
        self.dataver
    }

    /// The encoded value to be written.
    pub closed spec fn spec_data(&self) -> Seq<u8> {
        self.data@
    }

    /// A write payload as handed over by the request router.
    pub fn new(dataver: Option<u32>, data: Vec<u8>) -> (r: Self)
        ensures
            r.spec_dataver() == dataver,
            r.spec_data() == data@,
    {
        AttrData { dataver, data }
    }

    /// The with-dataver gate of the write path: yields the payload when the
    /// caller supplied no known version or the current one, and fails with
    /// `VersionMismatch` when the caller's knowledge is stale — before the
    /// cluster's state is touched.
    pub fn with_dataver(self, dataver: u32) -> (r: Result<Vec<u8>, Error>)
        ensures
            match r {
                Ok(d) => !version_mismatch(self.spec_dataver(), dataver) && d@ == self.spec_data(),
                Err(e) => e == Error::VersionMismatch && version_mismatch(
                    self.spec_dataver(),
                    dataver,
                ),
            },
    {
        match self.dataver {
            Some(known) => {
                if known == dataver {
                    Ok(self.data)
                } else {
                    Err(Error::VersionMismatch)
                }
            },
            None => Ok(self.data),
        }
    }
}

/// The addressing of one command request.
pub struct CmdDetails {
    /// The requested command id.
    pub cmd_id: u32,
}

/// Encoder for one command response: collects the encoded response of a
/// successful invocation, if the command produced any.
pub struct CmdDataEncoder {
    out: Option<Vec<u8>>,
}

impl CmdDataEncoder {
    /// The response recorded so far, if any.
    pub closed spec fn spec_out(&self) -> Option<Seq<u8>> {
        match self.out {
            Some(v) => Some(v@),
            None => None,
        }
    }

    /// A fresh encoder for one command invocation, with no response yet.
    pub fn new() -> (r: Self)
        ensures
            r.spec_out() is None,
    {
        CmdDataEncoder { out: None }
    }

    /// Hand the recorded response to the layer that frames it.
    pub fn take_output(self) -> (r: Option<Vec<u8>>)
        ensures
            match r {
                Some(v) => self.spec_out() == Some(v@),
                None => self.spec_out() is None,
            },
    {
        self.out
    }
}

} // verus!
