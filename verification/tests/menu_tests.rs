use er_menus::categories::FmgCategories;
use er_menus::gui::{weapon_name_units, HookGui};
use er_menus::hook::{allocation_candidate, jump_instruction};
use er_menus::item_names::item_name_for_id;
use er_menus::messages::{
    create_replacement_message, replacement_message, setup_message_replacements, LimitedList,
    WILD_STRIKES_ID,
};
use er_menus::text::encode_utf16;

#[test]
fn test_create_replacement_message() {
    let message_replacements = Vec::new();
    let category = FmgCategories::ArtsCaption;
    let id = WILD_STRIKES_ID;

    let result = create_replacement_message(message_replacements, category, id);
    assert!(!result.is_empty(), "Message replacements should not be empty");
}

#[test]
fn setup_installs_wild_strikes_caption() {
    let r = setup_message_replacements();
    assert_eq!(r.len(), 1);
    assert_eq!(r[0].category, FmgCategories::ArtsCaption);
    assert_eq!(r[0].id, 110);
    assert_eq!(r[0].message.len(), 0x257);
    let units = r[0].message.as_slice();
    assert_eq!(&units[..6], &[0x30, 0x30, 0x20, 0x30, 0x31, 0x20]);
    assert_eq!(&units[0x257 - 2..], &[0x63, 0x37]);
}

#[test]
fn create_replacement_message_keeps_earlier_ones() {
    let first = create_replacement_message(Vec::new(), FmgCategories::GoodsName, 1);
    let both = create_replacement_message(first, FmgCategories::WeaponName, 2);
    assert_eq!(both.len(), 2);
    assert_eq!(both[0].category, FmgCategories::GoodsName);
    assert_eq!(both[0].id, 1);
    assert_eq!(both[1].category, FmgCategories::WeaponName);
    assert_eq!(both[1].id, 2);
}

#[test]
fn limited_list_limit() {
    assert!(LimitedList::new(vec![0u16; 0x257]).is_ok());
    match LimitedList::new(vec![0u16; 0x258]) {
        Err(e) => assert_eq!(e, "List length exceeds limit"),
        Ok(_) => panic!("a list over the limit was accepted"),
    }
    let mut l = replacement_message(vec![1u16, 2]);
    l.extend(vec![3u16; 0x257]);
    assert_eq!(l.len(), 0x259);
    assert_eq!(&l.as_slice()[..3], &[1, 2, 3]);
    l.as_mut_slice()[0] = 9;
    assert_eq!(l.as_slice()[0], 9);
}

#[test]
fn utf16_encoding() {
    assert_eq!(encode_utf16("Ab"), vec![0x41, 0x62]);
    assert_eq!(encode_utf16("é😀"), vec![0xE9, 0xD83D, 0xDE00]);
    assert_eq!(encode_utf16(""), Vec::<u16>::new());
}

#[test]
fn weapon_name_is_sixteen_units() {
    let u = weapon_name_units("Dagger");
    assert_eq!(u.len(), 16);
    assert_eq!(&u[..6], &[0x44, 0x61, 0x67, 0x67, 0x65, 0x72]);
    assert!(u[6..].iter().all(|&x| x == 0));
    let long = weapon_name_units("Sword of Night and Flame");
    assert_eq!(long, "Sword of Night a".encode_utf16().collect::<Vec<u16>>());
    assert_eq!(weapon_name_units(""), vec![0u16; 16]);
}

#[test]
fn hook_gui_toggles_and_unhooks_once() {
    let mut gui = HookGui::new(setup_message_replacements(), 0x1234);
    assert!(!gui.window_open);
    assert!(!gui.unhook_triggered);
    gui.toggle_overlay();
    assert!(gui.window_open);
    gui.toggle_overlay();
    assert!(!gui.window_open);
    assert!(gui.request_unhook());
    assert!(!gui.request_unhook());
    assert!(gui.unhook_triggered);
    assert_eq!(gui.last_weapon_data_ptr, 0x1234);
}

#[test]
fn hook_gui_appends_weapon_name() {
    let mut gui = HookGui::new(setup_message_replacements(), 0);
    gui.append_weapon_name("Club");
    assert_eq!(gui.message_replacements[0].message.len(), 0x257 + 16);
    let tail = &gui.message_replacements[0].message.as_slice()[0x257..];
    assert_eq!(&tail[..4], &[0x43, 0x6C, 0x75, 0x62]);
    gui.append_weapon_name("Club");
    assert_eq!(gui.message_replacements[0].message.len(), 0x257 + 32);
}

#[test]
fn jump_instruction_bytes() {
    assert_eq!(jump_instruction(0x1000, 0), [0xE9, 0xFB, 0x0F, 0x00, 0x00]);
    assert_eq!(jump_instruction(0, 0x1000), [0xE9, 0xFB, 0xEF, 0xFF, 0xFF]);
    assert_eq!(jump_instruction(0x7ff6_0000_0000, 0x7ff6_0000_0000 - 0x10), [0xE9, 0x0B, 0, 0, 0]);
}

#[test]
fn allocation_candidates_alternate_around_target() {
    let target: usize = 0x1_4000_0000 + 0x7c045d;
    assert_eq!(allocation_candidate(target, 0), 0x1_4070_0000);
    assert_eq!(allocation_candidate(target, 1), 0x1_4060_0000);
    assert_eq!(allocation_candidate(target, 2), 0x1_4090_0000);
    assert_eq!(allocation_candidate(target, 3), 0x1_4040_0000);
    assert_eq!(allocation_candidate(0x10, 1), (0usize.wrapping_sub(0x100000 - 0x10)) & !0xFFFFF);
}

#[test]
fn item_names_from_table() {
    let table = "100:Dagger\r\n200: Club :x\nabc:Zero\n-5:Neg\n+7:\u{3000}Plus\u{a0}\n300\n";
    assert_eq!(item_name_for_id(table, 100), "Dagger");
    assert_eq!(item_name_for_id(table, 200), "Club");
    assert_eq!(item_name_for_id(table, 0), "Zero");
    assert_eq!(item_name_for_id(table, -5), "Neg");
    assert_eq!(item_name_for_id(table, 7), "Plus");
    assert_eq!(item_name_for_id(table, 300), "");
    assert_eq!(item_name_for_id("", 1), "");
    assert_eq!(item_name_for_id("2147483648:Big\n2147483647:Max", 2147483647), "Max");
    assert_eq!(item_name_for_id("2147483648:Big", 0), "Big");
    assert_eq!(item_name_for_id("1:a\r", 1), "a");
}
