//! The boolean contact sensor cluster: one versioned boolean value exposed
//! through the generic attribute access protocol.
//!
//! Version policy of this cluster: the data version advances exactly when
//! the stored value actually changes. A write of the value already held is a
//! no-op — it does not force-advance the version, so polling clients that
//! compare versions see no spurious churn.

use vstd::prelude::*;

use crate::codec::decode_bool;
use crate::codec::decoded_bool;
use crate::codec::encode_bool;
use crate::codec::encoded_attr_id_list;
use crate::codec::encoded_bool;
use crate::codec::encoded_u32;
use crate::dataver::wrapping_inc;
use crate::dataver::Dataver;
use crate::error::Error;
use crate::objects::is_system_attr;
use crate::objects::spec_find_attr;
use crate::objects::version_mismatch;
use crate::objects::Access;
use crate::objects::AttrData;
use crate::objects::AttrDataEncoder;
use crate::objects::AttrDetails;
use crate::objects::Attribute;
use crate::objects::Cluster;
use crate::objects::CmdDataEncoder;
use crate::objects::CmdDetails;
use crate::objects::Quality;
use crate::objects::ATTRIBUTE_LIST_ID;
use crate::objects::FEATURE_MAP_ID;

verus! {

/// The boolean-state cluster type id.
pub const ID: u32 = 0x0045;

/// The cluster-specific attribute id of the sensor state.
pub const STATE_ID: u16 = 0x0000;

/// The descriptor of the sensor state attribute: readable and writable,
/// scene-capable and persistent.
pub open spec fn state_attribute() -> Attribute {
    Attribute {
        id: STATE_ID,
        access: Access { read: true, write: true },
        quality: Quality { scene: true, persistent: true },
    }
}

/// The descriptor of the universal attribute-list attribute: read-only.
pub open spec fn attribute_list_attribute() -> Attribute {
    Attribute {
        id: ATTRIBUTE_LIST_ID,
        access: Access { read: true, write: false },
        quality: Quality { scene: false, persistent: false },
    }
}

/// The descriptor of the universal feature-map attribute: read-only.
pub open spec fn feature_map_attribute() -> Attribute {
    Attribute {
        id: FEATURE_MAP_ID,
        access: Access { read: true, write: false },
        quality: Quality { scene: false, persistent: false },
    }
}

/// The attribute descriptors of the contact sensor schema: the writable
/// sensor state and the two universal system attributes, listed ascending by
/// id so that the encoded attribute list comes out sorted.
pub open spec fn cluster_attributes() -> Seq<Attribute> {
    seq![state_attribute(), attribute_list_attribute(), feature_map_attribute()]
}

/// The declared attribute ids of the contact sensor schema, ascending.
pub open spec fn cluster_attr_ids() -> Seq<u16> {
    seq![STATE_ID, ATTRIBUTE_LIST_ID, FEATURE_MAP_ID]
}

/// What the schema declares for an attribute id: the state attribute, one of
/// the two read-only system attributes, or nothing.
pub open spec fn schema_lookup(id: u16) -> Option<Attribute> {
    if id == STATE_ID {
        Some(state_attribute())
    } else if id == ATTRIBUTE_LIST_ID {
        Some(attribute_list_attribute())
    } else if id == FEATURE_MAP_ID {
        Some(feature_map_attribute())
    } else {
        None
    }
}

/// A schema-order lookup in the contact sensor's attribute list finds
/// exactly what `schema_lookup` declares.
proof fn lemma_find_in_schema(id: u16)
    ensures
        spec_find_attr(cluster_attributes(), id) == schema_lookup(id),
{
    reveal_with_fuel(spec_find_attr, 4);
    let s = cluster_attributes();
    assert(s.skip(1) =~= seq![attribute_list_attribute(), feature_map_attribute()]);
    assert(s.skip(1).skip(1) =~= seq![feature_map_attribute()]);
    assert(s.skip(1).skip(1).skip(1) =~= Seq::<Attribute>::empty());
}

/// The contact sensor's schema descriptor: the boolean-state cluster id, no
/// optional features, the three attributes of `cluster_attributes`, and no
/// commands.
pub fn cluster() -> (c: Cluster)
    ensures
        c.id == ID,
        c.feature_map == 0,
        c.attributes@ == cluster_attributes(),
        c.commands@ == Seq::<u32>::empty(),
{
    let mut attributes: Vec<Attribute> = Vec::new();
    attributes.push(
        Attribute::new(
            STATE_ID,
            Access { read: true, write: true },
            Quality { scene: true, persistent: true },
        ),
    );
    attributes.push(
        Attribute::new(
            ATTRIBUTE_LIST_ID,
            Access { read: true, write: false },
            Quality { scene: false, persistent: false },
        ),
    );
    attributes.push(
        Attribute::new(
            FEATURE_MAP_ID,
            Access { read: true, write: false },
            Quality { scene: false, persistent: false },
        ),
    );
    proof {
        assert(attributes@ =~= cluster_attributes());
    }
    Cluster { id: ID, feature_map: 0, attributes, commands: Vec::new() }
}

/// Typed codec of the boolean sensor state.
#[derive(Clone, Copy)]
pub struct AttrType;

impl AttrType {
    /// Encode a value of this attribute's type into the read encoder.
    pub fn encode(&self, encoder: &mut AttrDataEncoder, value: bool)
        ensures
            final(encoder).spec_dataver() == old(encoder).spec_dataver(),
            final(encoder).spec_out() == Some(encoded_bool(value)),
    {
        let bytes = encode_bool(value);
        encoder.set(bytes);
    }

    /// Decode a write payload as this attribute's type.
    pub fn decode(&self, data: &[u8]) -> (r: Result<bool, Error>)
        ensures
            match r {
                Ok(v) => decoded_bool(data@) == Some(v),
                Err(e) => e == Error::MalformedData && decoded_bool(data@) is None,
            },
    {
        decode_bool(data)
    }
}

/// The codec registry of the contact sensor: each cluster-specific attribute
/// id maps to its typed codec. System attribute ids never appear here — they
/// are resolved generically from the schema descriptor.
pub enum Attributes {
    State(AttrType),
}

impl Attributes {
    /// Resolve the codec of a cluster-specific attribute id.
    pub fn try_from_id(id: u16) -> (r: Result<Attributes, Error>)
        ensures
            id == STATE_ID ==> (r matches Ok(c) && c is State),
            id != STATE_ID ==> r == Err::<Attributes, Error>(Error::UnsupportedAttribute),
    {
        if id == STATE_ID {
            Ok(Attributes::State(AttrType))
        } else {
            Err(Error::UnsupportedAttribute)
        }
    }
}

/// What a gated read of an attribute writes, given the current sensor value:
/// the two system attributes come generically from the schema descriptor,
/// the state from the boolean codec; any other id is unsupported.
pub open spec fn read_output(attr_id: u16, state: bool) -> Option<Seq<u8>> {
    if attr_id == FEATURE_MAP_ID {
        Some(encoded_u32(0))
    } else if attr_id == ATTRIBUTE_LIST_ID {
        Some(encoded_attr_id_list(cluster_attr_ids()))
    } else if attr_id == STATE_ID {
        Some(encoded_bool(state))
    } else {
        None
    }
}

/// The outcome a write to an attribute is due, by the schema and the codec:
/// the decoded value to apply to the state, or the exact error. The version
/// gate is not part of this — it runs first, on the raw payload.
pub open spec fn write_outcome(attr_id: u16, payload: Seq<u8>) -> Result<bool, Error> {
    if attr_id == STATE_ID {
        match decoded_bool(payload) {
            Some(v) => Ok(v),
            None => Err(Error::MalformedData),
        }
    } else if is_system_attr(attr_id) {
        Err(Error::UnsupportedAccess)
    } else {
        Err(Error::UnsupportedAttribute)
    }
}

/// One contact sensor cluster instance: a boolean sensor value bound to a
/// data-version tracker. The surrounding dispatch layer serializes access;
/// nothing here blocks.
#[derive(Clone, Copy)]
pub struct ContactSensorCluster {
    data_ver: Dataver,
    state: bool,
}

impl ContactSensorCluster {
    /// The sensor value currently held.
    pub closed spec fn spec_state(&self) -> bool {
        self.state
    }

    /// The instance's current data version.
    pub closed spec fn spec_ver(&self) -> u32 {
        self.data_ver.spec_ver()
    }

    /// Whether a change is pending for the notifier.
    pub closed spec fn pending(&self) -> bool {
        self.data_ver.pending()
    }

    /// A fresh instance around the given version tracker, with the sensor
    /// value starting out false.
    pub fn new(data_ver: Dataver) -> (r: Self)
        ensures
            r.spec_state() == false,
            r.spec_ver() == data_ver.spec_ver(),
            r.pending() == data_ver.pending(),
    {
        ContactSensorCluster { data_ver, state: false }
    }

    /// The current sensor value. No side effect.
    pub fn get(&self) -> (r: bool)
        ensures
            r == self.spec_state(),
    {
        self.state
    }

    /// The current data version. No side effect.
    pub fn current_version(&self) -> (v: u32)
        ensures
            v == self.spec_ver(),
    {
        self.data_ver.get()
    }

    /// Write the sensor value. The data version advances by exactly one and
    /// a change becomes pending exactly when the value differs from the one
    /// held; a write of the same value changes nothing at all.
    pub fn set(&mut self, on: bool)
        ensures
            final(self).spec_state() == on,
            old(self).spec_state() != on ==> final(self).spec_ver() == wrapping_inc(
                old(self).spec_ver(),
            ) && final(self).pending(),
            old(self).spec_state() == on ==> *final(self) == *old(self),
    {
        if self.state != on {
            self.state = on;
            self.data_ver.changed();
        }
    }

    /// Read an attribute into the encoder. When the caller's known version
    /// matches the current one, nothing is written — the caller's cached
    /// copy is current. Otherwise the attribute is resolved (system ids from
    /// the schema descriptor, the state through its codec) and its encoding
    /// recorded. Reading never mutates the instance.
    pub fn read(&self, attr: &AttrDetails, encoder: &mut AttrDataEncoder) -> (r: Result<
        (),
        Error,
    >)
        ensures
            final(encoder).spec_dataver() == old(encoder).spec_dataver(),
            old(encoder).spec_dataver() == Some(self.spec_ver()) ==> r is Ok
                && final(encoder).spec_out() == old(encoder).spec_out(),
            old(encoder).spec_dataver() != Some(self.spec_ver()) ==> (match read_output(
                attr.attr_id,
                self.spec_state(),
            ) {
                Some(bytes) => r is Ok && final(encoder).spec_out() == Some(bytes),
                None => r == Err::<(), Error>(Error::UnsupportedAttribute)
                    && final(encoder).spec_out() == old(encoder).spec_out(),
            }),
    {
        if encoder.with_dataver(self.data_ver.get()) {
            if attr.is_system() {
                let cluster = cluster();
                proof {
                    assert(cluster.attr_ids() =~= cluster_attr_ids());
                }
                cluster.read(attr.attr_id, encoder)
            } else {
                match Attributes::try_from_id(attr.attr_id) {
                    Ok(Attributes::State(codec)) => {
                        codec.encode(encoder, self.state);
                        Ok(())
                    },
                    Err(e) => Err(e),
                }
            }
        } else {
            Ok(())
        }
    }

    /// Write an attribute. The version gate runs first: a stale caller-known
    /// version fails with `VersionMismatch` before anything is touched. Then
    /// the schema descriptor is consulted (`UnsupportedAttribute` for an
    /// undeclared id, `UnsupportedAccess` for a read-only one), the payload
    /// is decoded (`MalformedData` on failure), and only then is the value
    /// applied through `set`. No error leaves the instance changed, and a
    /// no-op write leaves the version alone — this cluster does not
    /// force-advance it.
    pub fn write(&mut self, attr: &AttrDetails, data: AttrData) -> (r: Result<(), Error>)
        ensures
            version_mismatch(data.spec_dataver(), old(self).spec_ver()) ==> r == Err::<
                (),
                Error,
            >(Error::VersionMismatch) && *final(self) == *old(self),
            !version_mismatch(data.spec_dataver(), old(self).spec_ver()) ==> (match write_outcome(
                attr.attr_id,
                data.spec_data(),
            ) {
                Ok(v) => r is Ok && final(self).spec_state() == v
                    && (old(self).spec_state() == v ==> *final(self) == *old(self))
                    && (old(self).spec_state() != v ==> final(self).spec_ver() == wrapping_inc(
                    old(self).spec_ver(),
                ) && final(self).pending()),
                Err(e) => r == Err::<(), Error>(e) && *final(self) == *old(self),
            }),
    {
        let current = self.data_ver.get();
        let payload = match data.with_dataver(current) {
            Ok(d) => d,
            Err(e) => {
                return Err(e);
            },
        };
        let cluster = cluster();
        proof {
            lemma_find_in_schema(attr.attr_id);
        }
        let descriptor = match cluster.attribute(attr.attr_id) {
            Some(a) => a,
            None => {
                return Err(Error::UnsupportedAttribute);
            },
        };
        if !descriptor.access.write {
            return Err(Error::UnsupportedAccess);
        }
        let value = match Attributes::try_from_id(attr.attr_id) {
            Ok(Attributes::State(codec)) => match codec.decode(payload.as_slice()) {
                Ok(v) => v,
                Err(e) => {
                    return Err(e);
                },
            },
            Err(e) => {
                return Err(e);
            },
        };
        self.set(value);
        Ok(())
    }

    /// Dispatch a command. The contact sensor's schema declares no commands,
    /// so every command id is unrecognized: the invocation fails with
    /// `UnsupportedCommand` and leaves both the instance and the response
    /// encoder untouched.
    pub fn invoke(&mut self, _cmd: &CmdDetails, _data: &[u8], _encoder: &mut CmdDataEncoder) -> (r:
        Result<(), Error>)
        ensures
            r == Err::<(), Error>(Error::UnsupportedCommand),
            *final(self) == *old(self),
            *final(_encoder) == *old(_encoder),
    {
        Err(Error::UnsupportedCommand)
    }

    /// One-shot change notifier: yields a token exactly when a mutation
    /// happened since the previous consume, clearing the pending marker.
    /// The version, the value, and everything else stay untouched; repeated
    /// mutations before a consume coalesce into one token.
    pub fn consume_change(&mut self) -> (r: Option<()>)
        ensures
            r == (if old(self).pending() {
                Some(())
            } else {
                None::<()>
            }),
            !final(self).pending(),
            final(self).spec_ver() == old(self).spec_ver(),
            final(self).spec_state() == old(self).spec_state(),
    {
        self.data_ver.consume_change(())
    }
}

} // verus!
