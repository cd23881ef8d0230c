use watcher_rs::gen_db::{find_v4, find_v6, ipsum_records, EntryV4, EntryV6, IpsumDb, IpsumRecord};

#[test]
fn ipsum_lines() {
    let text = "# IPsum Threat Intelligence Feed\n# comment\n1.2.3.4\t5\n5.6.7.8 1\nbad line\n9.9.9.9 300\n10.0.0.1 x\n::1\t2";
    let recs = ipsum_records(text);
    assert_eq!(
        recs,
        vec![
            IpsumRecord { ip: "1.2.3.4".into(), score: 5 },
            IpsumRecord { ip: "5.6.7.8".into(), score: 1 },
            IpsumRecord { ip: "::1".into(), score: 2 },
        ]
    );
    assert!(ipsum_records("").is_empty());
}

#[test]
fn sorted_database_and_search() {
    let db = IpsumDb::from_entries(
        vec![EntryV4 { ip: 30, score: 1 }, EntryV4 { ip: 10, score: 2 }, EntryV4 { ip: 20, score: 3 }],
        vec![EntryV6 { ip: 2, score: 1 }, EntryV6 { ip: 1, score: 1 }],
    );
    assert_eq!(db.v4.iter().map(|e| e.ip).collect::<Vec<_>>(), vec![10, 20, 30]);
    assert_eq!(find_v4(&db.v4, 20), Some(1));
    assert_eq!(find_v4(&db.v4, 25), None);
    assert_eq!(find_v6(&db.v6, 1), Some(0));
    assert_eq!(find_v6(&db.v6, 3), None);
    assert_eq!(find_v4(&Vec::new(), 1), None);
}
