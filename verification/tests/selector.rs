use bbb_provision::inventory::{list_eligible_devices, BlockDevice, Inventory};
use bbb_provision::selector::{
    drive_label, get_device, names, resolve, select_device, select_token,
};

fn listed(count: usize) -> Inventory {
    let mut all = Vec::new();
    let mut i = 0;
    while i < count {
        all.push(BlockDevice {
            name: format!("sd{}", (b'b' + (i % 20) as u8) as char) + &format!("{}", i / 20),
            total_bytes: 16_000_000_000 + i as u64,
            available: "14.9G".to_string(),
            mount_points: Vec::new(),
        });
        i += 1;
    }
    list_eligible_devices(&all)
}

#[test]
fn labels_and_tokens_carry_the_ordinal() {
    assert_eq!(drive_label(0), "drive0");
    assert_eq!(drive_label(12), "drive12");
    assert_eq!(select_token(0), "select_0");
    assert_eq!(select_token(305), "select_305");
}

#[test]
fn the_three_forms_select_the_same_device() {
    let inventory = listed(3);
    let mut n = 0;
    while n < 3 {
        let expected = inventory.get(n);
        assert!(expected.is_some());
        assert_eq!(get_device(&inventory, &format!("drive{}", n)), expected);
        assert_eq!(get_device(&inventory, &format!("select_{}", n)), expected);
        assert_eq!(get_device(&inventory, &format!("{}", n)), expected);
        n += 1;
    }
    assert_eq!(get_device(&inventory, "drive1").unwrap().total_bytes, 16_000_000_001);
}

#[test]
fn every_other_input_is_rejected() {
    let inventory = listed(3);
    for input in ["", " ", "drive", "select_", "drive3", "select_3", "3", "drive01", "01", "+1",
        "Drive1", "DRIVE1", "drive 1", "drive1 ", " drive1", "drive1\n", "select1", "select-1",
        "drive_1", "sdb", "/dev/sdb", "1.0", "-1", "one", "drive1drive1", "99999999999999999999"]
    {
        assert_eq!(get_device(&inventory, input), None, "{:?}", input);
    }
}

#[test]
fn an_empty_listing_selects_nothing() {
    let inventory = listed(0);
    assert_eq!(get_device(&inventory, "drive0"), None);
    assert_eq!(get_device(&inventory, "0"), None);
    assert_eq!(resolve("0", 0), None);
}

#[test]
fn ordinals_of_several_digits_resolve() {
    let inventory = listed(12);
    assert_eq!(get_device(&inventory, "drive11"), inventory.get(11));
    assert_eq!(get_device(&inventory, "select_10"), inventory.get(10));
    assert_eq!(get_device(&inventory, "1"), inventory.get(1));
    assert_eq!(get_device(&inventory, "12"), None);
    assert_eq!(resolve("drive11", 12), Some(11));
    assert_eq!(resolve("drive11", 11), None);
}

#[test]
fn names_tests_one_ordinal() {
    assert!(names("drive2", 2));
    assert!(names("select_2", 2));
    assert!(names("2", 2));
    assert!(!names("drive2", 1));
    assert!(!names("02", 2));
    assert!(!names("", 0));
}

#[test]
fn a_line_of_input_is_trimmed_before_matching() {
    let inventory = listed(2);
    assert_eq!(select_device(&inventory, "drive1\n"), inventory.get(1));
    assert_eq!(select_device(&inventory, "  select_0 \r\n"), inventory.get(0));
    assert_eq!(select_device(&inventory, "1\n"), inventory.get(1));
    assert_eq!(select_device(&inventory, "\n"), None);
    assert_eq!(select_device(&inventory, "drive 1\n"), None);
    assert_eq!(select_device(&inventory, "drive2\n"), None);
}

#[test]
fn asking_again_after_a_rejected_input_still_works() {
    let inventory = listed(2);
    let inputs = ["nonsense\n", "\n", "drive9\n", "drive0\n"];
    let mut asked = 0;
    let mut chosen = None;
    for line in inputs {
        asked += 1;
        if let Some(d) = select_device(&inventory, line) {
            chosen = Some(d.name.clone());
            break;
        }
    }
    assert_eq!(asked, 4);
    assert_eq!(chosen, Some("sdb0".to_string()));
}
