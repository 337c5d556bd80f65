use er_menus::categories::FmgCategories;
use er_menus::fmg::{
    category_for_filename, is_xml_file_name, Fmg, FmgDatabases, FmgDirs, FmgEntries, FmgText,
};

fn table(filename: &str, texts: Vec<(u32, &str)>) -> Fmg {
    Fmg {
        filename: filename.to_string(),
        compression: "none".to_string(),
        version: "1.0".to_string(),
        bigendian: "false".to_string(),
        entries: FmgEntries {
            texts: texts
                .into_iter()
                .map(|(id, content)| FmgText { id, content: content.to_string() })
                .collect(),
        },
    }
}

/// The tables that the resource directories hold: the base game's, both
/// expansions', and the custom ones where a custom directory is named.
fn resource_dirs(additional_custom_path: Option<&str>) -> Option<FmgDirs> {
    Some(FmgDirs {
        base: Some(vec![
            table("GoodsName.fmg", vec![(100, "Flask of Crimson Tears")]),
            table("ArtsCaption.fmg", vec![(110, "Wild Strikes")]),
        ]),
        dlc01: Some(vec![table("GoodsName.fmg", vec![(200, "Scadutree Fragment")])]),
        dlc02: Some(vec![table("WeaponName.fmg", vec![(300, "Dagger")])]),
        custom: additional_custom_path
            .map(|_| vec![table("ArtsCaption.fmg", vec![(110, "Custom caption")])]),
    })
}

#[test]
fn test_get_fmg_entry() {
    let fmg = Fmg {
        filename: "Test.fmg".to_string(),
        compression: "none".to_string(),
        version: "1.0".to_string(),
        bigendian: "false".to_string(),
        entries: FmgEntries {
            texts: vec![
                FmgText { id: 1, content: "Test content 1".to_string() },
                FmgText { id: 2, content: "Test content 2".to_string() },
            ],
        },
    };
    assert_eq!(fmg.get_entry(1).unwrap().content, "Test content 1");
    assert!(fmg.get_entry(3).is_none(), "Entry with id 3 should not exist");
}

#[test]
fn test_get_fmg() {
    let mut db = FmgDatabases::new();
    db.read_from_dirs(resource_dirs(None));
    let fmg = db.get_fmg(FmgCategories::GoodsName);
    assert!(fmg.is_some(), "FMG for GoodsName should be found");
    assert_eq!(fmg.unwrap().filename, "GoodsName.fmg", "FMG filename should match");
}

#[test]
fn test_add_fmg() {
    let mut db = FmgDatabases::new();
    let fmg = Fmg {
        filename: "Test.fmg".to_string(),
        compression: "none".to_string(),
        version: "1.0".to_string(),
        bigendian: "false".to_string(),
        entries: FmgEntries {
            texts: vec![FmgText { id: 1, content: "Test content".to_string() }],
        },
    };
    db.add_fmg(fmg.clone(), FmgCategories::GoodsName);
    assert!(!db.base.entries.is_empty(), "Base FMG entries should not be empty");
    assert!(
        db.base.entries.contains(&(FmgCategories::GoodsName, fmg.clone())),
        "FMG should be added to the base database"
    );
    db.add_fmg(fmg.clone(), FmgCategories::GoodsName);
    assert_eq!(db.base.entries.len(), 1, "FMG should not be duplicated in the base database");
}

#[test]
fn test_read_from_dirs() {
    let mut db = FmgDatabases::new();
    db.read_from_dirs(resource_dirs(None));
    assert!(!db.base.entries.is_empty(), "Base FMG entries should not be empty");
    if let Some(dlc01) = &db.dlc01 {
        assert!(!dlc01.entries.is_empty(), "DLC01 FMG entries should not be empty");
    }
    if let Some(dlc02) = &db.dlc02 {
        assert!(!dlc02.entries.is_empty(), "DLC02 FMG entries should not be empty");
    }
    assert!(db.custom.is_none(), "Custom FMG entries should be None");
    db.read_from_dirs(resource_dirs(Some("item_custom-msgbnd-dcx")));
    if let Some(custom) = &db.custom {
        assert!(!custom.entries.is_empty(), "Custom FMG entries should not be empty");
    } else {
        panic!("Custom FMG entries should not be None after reading from custom path");
    }
}

#[test]
fn read_from_dirs_without_resources_changes_nothing() {
    let mut db = FmgDatabases::new();
    db.add_fmg(table("GoodsName.fmg", vec![(1, "a")]), FmgCategories::GoodsName);
    db.read_from_dirs(None);
    assert_eq!(db.base.entries.len(), 1);
    assert!(db.dlc01.is_none() && db.dlc02.is_none() && db.custom.is_none());
}

#[test]
fn read_from_dirs_files_tables_by_name() {
    let mut db = FmgDatabases::new();
    db.read_from_dirs(resource_dirs(None));
    assert_eq!(db.base.entries[0].0, FmgCategories::GoodsName);
    assert_eq!(db.base.entries[1].0, FmgCategories::ArtsCaption);
    assert_eq!(db.dlc01.as_ref().unwrap().entries[0].0, FmgCategories::GoodsName);
    assert_eq!(db.dlc02.as_ref().unwrap().entries[0].0, FmgCategories::WeaponName);
}

#[test]
fn get_fmg_prefers_custom_then_dlc02_then_dlc01_then_base() {
    let mut db = FmgDatabases::new();
    db.read_from_dirs(resource_dirs(Some("custom")));
    let caption = db.get_fmg(FmgCategories::ArtsCaption).unwrap();
    assert_eq!(caption.get_entry(110).unwrap().content, "Custom caption");
    let weapon = db.get_fmg(FmgCategories::WeaponName).unwrap();
    assert_eq!(weapon.filename, "WeaponName.fmg");
    let goods = db.get_fmg(FmgCategories::GoodsName).unwrap();
    assert_eq!(goods.get_entry(200).unwrap().content, "Scadutree Fragment");
    assert!(goods.get_entry(100).is_none());
    assert!(db.get_fmg(FmgCategories::TalkMsg).is_none());
}

#[test]
fn get_fmg_finds_added_table() {
    let mut db = FmgDatabases::default();
    assert!(db.get_fmg(FmgCategories::NpcName).is_none());
    let npc = table("NpcName.fmg", vec![(7, "Melina")]);
    db.add_fmg(npc.clone(), FmgCategories::NpcName);
    assert_eq!(db.get_fmg(FmgCategories::NpcName), Some(&npc));
}

#[test]
fn add_fmg_keeps_distinct_tables() {
    let mut db = FmgDatabases::new();
    db.add_fmg(table("A.fmg", vec![(1, "a")]), FmgCategories::GoodsName);
    db.add_fmg(table("A.fmg", vec![(1, "b")]), FmgCategories::GoodsName);
    db.add_fmg(table("A.fmg", vec![(1, "a")]), FmgCategories::WeaponName);
    assert_eq!(db.base.entries.len(), 3);
}

#[test]
fn get_entry_returns_first_of_equal_ids() {
    let t = table("T.fmg", vec![(5, "first"), (5, "second")]);
    assert_eq!(t.get_entry(5).unwrap().content, "first");
    assert_eq!(t.get_entries().len(), 2);
}

#[test]
fn category_for_filename_reads_names() {
    assert_eq!(category_for_filename(&"GoodsName.fmg".to_string()), FmgCategories::GoodsName);
    assert_eq!(category_for_filename(&"ArtsCaption.fmg".to_string()), FmgCategories::ArtsCaption);
    assert_eq!(category_for_filename(&"WeaponName".to_string()), FmgCategories::WeaponName);
    assert_eq!(
        category_for_filename(&"TutorialBodyDlc02.fmg".to_string()),
        FmgCategories::TutorialBodyDlc02
    );
    assert_eq!(category_for_filename(&"weaponname.fmg".to_string()), FmgCategories::GoodsName);
    assert_eq!(category_for_filename(&"Unknown.fmg".to_string()), FmgCategories::GoodsName);
    assert_eq!(category_for_filename(&"ArtsCaption.fmg.fmg".to_string()), FmgCategories::GoodsName);
}

#[test]
fn category_ids_and_names() {
    assert_eq!(FmgCategories::TalkMsg.id(), 1);
    assert_eq!(FmgCategories::ArtsCaption.id(), 43);
    assert_eq!(FmgCategories::GrMenuText.id(), 200);
    assert_eq!(FmgCategories::TutorialBodyDlc02.id(), 476);
    assert_eq!(FmgCategories::GemEffectDlc01.name(), "GemEffectDlc01");
}

#[test]
fn xml_file_names() {
    assert!(is_xml_file_name("ArtsCaption.fmg.xml"));
    assert!(is_xml_file_name("a.xml"));
    assert!(!is_xml_file_name(".xml"));
    assert!(!is_xml_file_name("a.XML"));
    assert!(!is_xml_file_name("a.xml.bak"));
    assert!(!is_xml_file_name("xml"));
}
