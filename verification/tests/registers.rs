use st3215::servo_protocol::{get_register_table, ADDR_TORQUE_SWITCH};

#[test]
fn table_has_every_register() {
    let t = get_register_table();
    assert_eq!(t.len(), 49);
    assert_eq!(t[0].address, 0);
    assert_eq!(t[0].name, "固件主版本号");
    assert_eq!(t[48].address, 69);
    assert_eq!(t[48].unit, "6.5mA");
}

#[test]
fn id_register_entry() {
    let t = get_register_table();
    let r = t.iter().find(|r| r.address == 5).unwrap();
    assert_eq!(r.name, "ID");
    assert_eq!(r.bytes, 1);
    assert_eq!(r.default_value, Some(1));
    assert_eq!(r.storage, "EPROM");
    assert_eq!(r.permission, "读写");
    assert_eq!((r.min_value, r.max_value), (Some(0), Some(253)));
    assert_eq!(r.unit, "号");
    assert_eq!(r.description, "总线上唯一的身份识别码");
}

#[test]
fn position_correction_is_signed() {
    let t = get_register_table();
    let r = t.iter().find(|r| r.address == 31).unwrap();
    assert_eq!((r.min_value, r.max_value), (Some(-2047), Some(2047)));
}

#[test]
fn registers_ascend_without_overlap() {
    let t = get_register_table();
    for w in t.windows(2) {
        assert!(w[0].address as u32 + w[0].bytes as u32 <= w[1].address as u32);
    }
    assert!(t.iter().all(|r| r.bytes == 1 || r.bytes == 2));
}

#[test]
fn eprom_below_torque_switch_sram_from_it() {
    for r in get_register_table() {
        if r.address < ADDR_TORQUE_SWITCH {
            assert_eq!(r.storage, "EPROM");
        } else {
            assert_eq!(r.storage, "SRAM");
        }
    }
}

#[test]
fn access_and_ranges_agree() {
    for r in get_register_table() {
        if r.permission == "只读" {
            assert!(r.min_value.is_none() && r.max_value.is_none());
        } else {
            assert_eq!(r.permission, "读写");
            let (min, max, def) = (r.min_value.unwrap(), r.max_value.unwrap(), r.default_value.unwrap());
            assert!(min <= def && def <= max);
            if r.bytes == 1 {
                assert!(0 <= min && max <= 255);
            }
        }
    }
}
