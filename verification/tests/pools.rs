use chain_ingest::pools::{attribute, find_pool, pools, Pool, PrivatePool};

#[test]
fn getpool_copies_the_entry() {
    let entry = PrivatePool { pubkey: "gcs1key", url: "https://pool.example/", is_active: false };
    assert_eq!(
        entry.getpool(),
        Pool {
            pubkey: "gcs1key".to_string(),
            url: Some("https://pool.example/".to_string()),
            pool_is_active: Some(false),
        }
    );
}

#[test]
fn the_table_has_twelve_pools() {
    let table = pools();
    assert_eq!(table.len(), 12);
    assert_eq!(table[0].pubkey, "gcs179wukwy95kewa6pex7f47w3xuzn3nywqdng394");
    assert_eq!(table[0].url, "https://myghost.org/");
    assert!(table[0].is_active);
    assert_eq!(table[4].url, "https://пул.гост.рус");
    assert_eq!(table[11].pubkey, "gcs154p3rm80dg3arc5jak3293mkgk45uhfggej3da");
    assert!(!table[11].is_active);
}

#[test]
fn the_keys_of_the_table_are_distinct() {
    let table = pools();
    for i in 0..table.len() {
        for j in 0..i {
            assert_ne!(table[i].pubkey, table[j].pubkey);
        }
    }
}

#[test]
fn a_known_key_is_attributed_to_its_pool() {
    assert_eq!(
        attribute("gcs1wzjvh9cmdf5h9atk785tvmu68729534rzu34p6"),
        Some(Pool {
            pubkey: "gcs1wzjvh9cmdf5h9atk785tvmu68729534rzu34p6".to_string(),
            url: Some("https://mega.myghost.org/".to_string()),
            pool_is_active: Some(true),
        })
    );
    assert_eq!(
        attribute("gcs1al0tw5g8danpluh2rsqxkd5cj4sc08wc2tsvjt"),
        Some(Pool {
            pubkey: "gcs1al0tw5g8danpluh2rsqxkd5cj4sc08wc2tsvjt".to_string(),
            url: Some("https://ghostake.com".to_string()),
            pool_is_active: Some(false),
        })
    );
}

#[test]
fn every_entry_of_the_table_is_found() {
    for entry in pools() {
        assert_eq!(attribute(entry.pubkey), Some(entry.getpool()));
    }
}

#[test]
fn an_unknown_key_is_attributed_to_no_pool() {
    assert_eq!(attribute("gcs1unknownunknownunknownunknownunknown00"), None);
    assert_eq!(attribute(""), None);
    assert_eq!(attribute("gcs179wukwy95kewa6pex7f47w3xuzn3nywqdng39"), None);
}

#[test]
fn the_first_entry_with_the_key_wins() {
    let table = vec![
        PrivatePool { pubkey: "a", url: "first", is_active: true },
        PrivatePool { pubkey: "b", url: "second", is_active: true },
        PrivatePool { pubkey: "a", url: "third", is_active: false },
    ];
    assert_eq!(find_pool(&table, "a").unwrap().url, Some("first".to_string()));
    assert_eq!(find_pool(&table, "b").unwrap().url, Some("second".to_string()));
    assert_eq!(find_pool(&table, "c"), None);
    assert_eq!(find_pool(&Vec::new(), "a"), None);
}
