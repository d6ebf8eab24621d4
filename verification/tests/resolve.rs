use forest_cid::Code::Blake2b256;
use forest_db::MemoryDB;
use forest_ipld::Ipld;
use graphql_ipld::{IpldStore, Query};
use ipld_blockstore::BlockStore;
use std::collections::BTreeMap;

#[test]
fn test_basic_resolve() {
    let db = MemoryDB::default();
    let cid = db.put(&8, Blake2b256).unwrap();
    assert_eq!(
        cid.to_string(),
        "bafy2bzaced5n2imaxvvrz6ttuz7hrewypbjb55uzdcmvaqh3qzqwi7jsdygfk"
    );
    let store = IpldStore::new(db);

    let resolved = Query::resolve(
        &store,
        "bafy2bzaced5n2imaxvvrz6ttuz7hrewypbjb55uzdcmvaqh3qzqwi7jsdygfk".to_string(),
    )
    .unwrap();
    assert_eq!(resolved.integer(), Some(8));
}

#[test]
fn mod_test_basic_resolve() {
    let db = MemoryDB::default();
    let ipld1 = Ipld::Integer(8);
    let cid = db.put(&ipld1, Blake2b256).unwrap();
    assert_eq!(
        cid.to_string(),
        "bafy2bzaced5n2imaxvvrz6ttuz7hrewypbjb55uzdcmvaqh3qzqwi7jsdygfk"
    );
    let store = IpldStore::new(db);

    let resolved = Query::resolve(
        &store,
        "bafy2bzaced5n2imaxvvrz6ttuz7hrewypbjb55uzdcmvaqh3qzqwi7jsdygfk".to_string(),
    )
    .unwrap();
    assert_eq!(resolved.integer(), Some(8));
}

#[test]
fn test_link_resolution() {
    let db = MemoryDB::default();
    let cid = db.put(&8, Blake2b256).unwrap();
    assert_eq!(
        cid.to_string(),
        "bafy2bzaced5n2imaxvvrz6ttuz7hrewypbjb55uzdcmvaqh3qzqwi7jsdygfk"
    );
    let cid = db.put(&cid, Blake2b256).unwrap();
    assert_eq!(
        cid.to_string(),
        "bafy2bzacebdyrodpi5ivwjnqgzkys73khawycs7ch5olmjk2a56tvydcdlcu2"
    );
    let store = IpldStore::new(db);

    let resolved = Query::resolve(
        &store,
        "bafy2bzacebdyrodpi5ivwjnqgzkys73khawycs7ch5olmjk2a56tvydcdlcu2".to_string(),
    )
    .unwrap();
    let linked = resolved.link(&store).unwrap().unwrap();
    assert_eq!(linked.integer(), Some(8));
}

#[test]
fn mod_test_link_resolution() {
    let db = MemoryDB::default();
    let ipld1 = Ipld::Integer(8);
    let cid = db.put(&ipld1, Blake2b256).unwrap();
    assert_eq!(
        cid.to_string(),
        "bafy2bzaced5n2imaxvvrz6ttuz7hrewypbjb55uzdcmvaqh3qzqwi7jsdygfk"
    );
    let ipld2 = Ipld::Link(cid);
    let cid = db.put(&ipld2, Blake2b256).unwrap();
    assert_eq!(
        cid.to_string(),
        "bafy2bzacebdyrodpi5ivwjnqgzkys73khawycs7ch5olmjk2a56tvydcdlcu2"
    );
    let store = IpldStore::new(db);

    let resolved = Query::resolve(
        &store,
        "bafy2bzacebdyrodpi5ivwjnqgzkys73khawycs7ch5olmjk2a56tvydcdlcu2".to_string(),
    )
    .unwrap();
    let linked = resolved.link(&store).unwrap().unwrap();
    assert_eq!(linked.integer(), Some(8));
}

#[test]
fn test_map() {
    let db = MemoryDB::default();
    let mut e_map = BTreeMap::<String, Ipld>::new();
    e_map.insert("1".to_string(), Ipld::Integer(1));
    e_map.insert("2".to_string(), Ipld::String("test_name".to_owned()));
    let ipld_list = Ipld::Map(e_map);
    let cid = db.put(&ipld_list, Blake2b256).unwrap();
    assert_eq!(
        cid.to_string(),
        "bafy2bzacebjpfhxkkbdtr3a4ag34rw2uedwzwlzuppqfmawvxafx62h5hr6pq"
    );
    let store = IpldStore::new(db);

    let resolved = Query::resolve(
        &store,
        "bafy2bzacebjpfhxkkbdtr3a4ag34rw2uedwzwlzuppqfmawvxafx62h5hr6pq".to_string(),
    )
    .unwrap();
    let entries: Vec<(String, Option<String>)> = resolved
        .map()
        .as_ref()
        .unwrap()
        .iter()
        .map(|item| (item.key().to_string(), item.value().string().clone()))
        .collect();
    assert_eq!(
        entries,
        vec![
            ("1".to_string(), None),
            ("2".to_string(), Some("test_name".to_string())),
        ]
    );
}

#[test]
fn test_list() {
    let db = MemoryDB::default();
    let ipld1 = Ipld::List(vec![Ipld::Bool(true), Ipld::Bytes(vec![8, 2])]);
    let cid = db.put(&ipld1, Blake2b256).unwrap();
    assert_eq!(
        cid.to_string(),
        "bafy2bzaceatj4dsfk5ylhzvgmg2pn3yhi5mj6z2uzgftqjfvskxgvy5m2dnu4"
    );
    let store = IpldStore::new(db);

    let resolved = Query::resolve(
        &store,
        "bafy2bzaceatj4dsfk5ylhzvgmg2pn3yhi5mj6z2uzgftqjfvskxgvy5m2dnu4".to_string(),
    )
    .unwrap();
    let items: Vec<(Option<bool>, Option<String>)> = resolved
        .list()
        .as_ref()
        .unwrap()
        .iter()
        .map(|item| (item.bool(), item.bytes().as_ref().map(|b| b.0.clone())))
        .collect();
    assert_eq!(
        items,
        vec![(Some(true), None), (None, Some("0802".to_string()))]
    );
}
