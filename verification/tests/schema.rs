use contact_sensor::contact_sensor::cluster;
use contact_sensor::contact_sensor::ID;
use contact_sensor::contact_sensor::STATE_ID;
use contact_sensor::error::Error;
use contact_sensor::objects::AttrDataEncoder;
use contact_sensor::objects::AttrDetails;
use contact_sensor::objects::ATTRIBUTE_LIST_ID;
use contact_sensor::objects::FEATURE_MAP_ID;

#[test]
fn descriptor_shape() {
    let c = cluster();
    assert_eq!(c.id, ID);
    assert_eq!(c.id, 0x0045);
    assert_eq!(c.feature_map, 0);
    assert_eq!(c.attr_id_list(), vec![STATE_ID, ATTRIBUTE_LIST_ID, FEATURE_MAP_ID]);
    assert!(c.commands.is_empty());
}

#[test]
fn descriptor_lookup_and_access() {
    let c = cluster();
    let state = c.attribute(STATE_ID).expect("state attribute is declared");
    assert!(state.access.read);
    assert!(state.access.write);
    let feature_map = c.attribute(FEATURE_MAP_ID).expect("feature map is declared");
    assert!(feature_map.access.read);
    assert!(!feature_map.access.write);
    let attr_list = c.attribute(ATTRIBUTE_LIST_ID).expect("attribute list is declared");
    assert!(attr_list.access.read);
    assert!(!attr_list.access.write);
    assert!(c.attribute(0x0005).is_none());
}

#[test]
fn system_read_feature_map() {
    let c = cluster();
    let mut enc = AttrDataEncoder::new(None);
    assert_eq!(c.read(FEATURE_MAP_ID, &mut enc), Ok(()));
    assert_eq!(enc.take_output(), Some(vec![0u8, 0, 0, 0]));
}

#[test]
fn system_read_attribute_list_is_sorted() {
    let c = cluster();
    let mut enc = AttrDataEncoder::new(None);
    assert_eq!(c.read(ATTRIBUTE_LIST_ID, &mut enc), Ok(()));
    assert_eq!(enc.take_output(), Some(vec![0x00u8, 0x00, 0xFB, 0xFF, 0xFC, 0xFF]));
}

#[test]
fn system_read_refuses_other_ids() {
    let c = cluster();
    let mut enc = AttrDataEncoder::new(None);
    assert_eq!(c.read(STATE_ID, &mut enc), Err(Error::UnsupportedAttribute));
    assert_eq!(enc.take_output(), None);
}

#[test]
fn is_system_classification() {
    assert!(AttrDetails { attr_id: FEATURE_MAP_ID }.is_system());
    assert!(AttrDetails { attr_id: ATTRIBUTE_LIST_ID }.is_system());
    assert!(!AttrDetails { attr_id: STATE_ID }.is_system());
    assert!(!AttrDetails { attr_id: 0x0005 }.is_system());
}
