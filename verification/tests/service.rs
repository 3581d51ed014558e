use onsen::engine::{
    Acknowledgement, EngineReply, EngineRequest, SearchResult, StoredDocument,
};
use onsen::error::Error;
use onsen::ops::{
    create_onsen_request, create_onsen_response, delete_onsen_request, delete_onsen_response,
    get_onsen_request, get_onsen_response, search_onsen_request, search_onsen_response,
    update_onsen_request, update_onsen_response,
};
use onsen::query::{Query, TextField};
use onsen::record::{Deleted, DocumentBody, Onsen, OnsenList};

/// An engine in memory that answers as the service expects of a real one.
struct Shelf {
    documents: Vec<(String, DocumentBody)>,
    issued: u32,
    calls: u32,
}

impl Shelf {
    fn new() -> Shelf {
        Shelf { documents: Vec::new(), issued: 0, calls: 0 }
    }

    fn position(&self, id: &str) -> Option<usize> {
        self.documents.iter().position(|(k, _)| k == id)
    }

    fn search(&mut self, request: EngineRequest) -> EngineReply<SearchResult> {
        self.calls += 1;
        let query = match request {
            EngineRequest::Search { query } => query,
            other => panic!("not a search: {:?}", other),
        };
        let mut hits = Vec::new();
        for (id, body) in &self.documents {
            let wanted = match &query {
                Query::MatchAll => true,
                Query::MultiMatch { query, fields } => fields.iter().any(|f| match f {
                    TextField::Name => body.name.contains(query.as_str()),
                    TextField::Address => body.address.contains(query.as_str()),
                }),
            };
            if wanted {
                hits.push(StoredDocument {
                    document_id: id.clone(),
                    index: "onsen".to_string(),
                    body: body.clone(),
                });
            }
        }
        EngineReply::Answered { status: 200, payload: Some(SearchResult { took: 1, hits }) }
    }

    fn get(&mut self, request: EngineRequest) -> EngineReply<StoredDocument> {
        self.calls += 1;
        let id = match request {
            EngineRequest::Get { id } => id,
            other => panic!("not a fetch: {:?}", other),
        };
        match self.position(&id) {
            Some(at) => EngineReply::Answered {
                status: 200,
                payload: Some(StoredDocument {
                    document_id: id,
                    index: "onsen".to_string(),
                    body: self.documents[at].1.clone(),
                }),
            },
            None => EngineReply::Answered { status: 404, payload: None },
        }
    }

    fn index(&mut self, request: EngineRequest) -> EngineReply<Acknowledgement> {
        self.calls += 1;
        let body = match request {
            EngineRequest::Index { body } => body,
            other => panic!("not a creation: {:?}", other),
        };
        self.issued += 1;
        let id = format!("doc-{}", self.issued);
        self.documents.push((id.clone(), body));
        EngineReply::Answered { status: 201, payload: Some(Acknowledgement { document_id: id }) }
    }

    fn update(&mut self, request: EngineRequest) -> EngineReply<()> {
        self.calls += 1;
        let (id, doc) = match request {
            EngineRequest::Update { id, doc } => (id, doc),
            other => panic!("not an update: {:?}", other),
        };
        match self.position(&id) {
            Some(at) => {
                self.documents[at].1 = doc;
                EngineReply::Answered { status: 200, payload: Some(()) }
            }
            None => EngineReply::Answered { status: 404, payload: None },
        }
    }

    fn delete(&mut self, request: EngineRequest) -> EngineReply<Acknowledgement> {
        self.calls += 1;
        let id = match request {
            EngineRequest::Delete { id } => id,
            other => panic!("not a removal: {:?}", other),
        };
        match self.position(&id) {
            Some(at) => {
                self.documents.remove(at);
                EngineReply::Answered {
                    status: 200,
                    payload: Some(Acknowledgement { document_id: id }),
                }
            }
            None => EngineReply::Answered {
                status: 404,
                payload: Some(Acknowledgement { document_id: id }),
            },
        }
    }
}

fn record(id: Option<&str>, area: &str, name: &str, address: &str) -> Onsen {
    Onsen {
        id: id.map(|s| s.to_string()),
        area: area.to_string(),
        name: name.to_string(),
        address: address.to_string(),
    }
}

fn create(shelf: &mut Shelf, r: Onsen) -> Result<Onsen, Error> {
    let request = create_onsen_request(&r)?;
    let reply = shelf.index(request);
    create_onsen_response(r, reply)
}

fn get(shelf: &mut Shelf, id: &str) -> Result<Onsen, Error> {
    let reply = shelf.get(get_onsen_request(id.to_string()));
    get_onsen_response(reply)
}

fn update(shelf: &mut Shelf, id: &str, r: Onsen) -> Result<Onsen, Error> {
    let id = id.to_string();
    let request = update_onsen_request(&id, &r)?;
    let reply = shelf.update(request);
    update_onsen_response(id, r, reply)
}

fn delete(shelf: &mut Shelf, id: &str) -> Result<Deleted, Error> {
    let reply = shelf.delete(delete_onsen_request(id.to_string()));
    delete_onsen_response(reply)
}

fn search(shelf: &mut Shelf, term: Option<&str>) -> Result<OnsenList, Error> {
    let reply = shelf.search(search_onsen_request(term.map(|s| s.to_string())));
    search_onsen_response(reply)
}

#[test]
fn created_record_can_be_fetched() {
    let mut shelf = Shelf::new();
    let made = create(&mut shelf, record(None, "別府", "竹瓦温泉", "大分県別府市")).unwrap();
    let id = made.id.clone().unwrap();
    let got = get(&mut shelf, &id).unwrap();
    assert_eq!(got.id, Some(id));
    assert_eq!(got.area, "別府");
    assert_eq!(got.name, "竹瓦温泉");
    assert_eq!(got.address, "大分県別府市");
}

#[test]
fn create_with_identifier_stores_nothing() {
    let mut shelf = Shelf::new();
    let out = create(&mut shelf, record(Some("mine"), "a", "n", "d"));
    assert_eq!(out.err(), Some(Error::InvalidInput));
    assert_eq!(shelf.calls, 0);
    assert!(shelf.documents.is_empty());
}

#[test]
fn update_with_other_identifier_changes_nothing() {
    let mut shelf = Shelf::new();
    let id = create(&mut shelf, record(None, "a", "n", "d")).unwrap().id.unwrap();
    let calls = shelf.calls;
    let out = update(&mut shelf, &id, record(Some("someone-else"), "x", "y", "z"));
    assert_eq!(out.err(), Some(Error::InvalidInput));
    assert_eq!(shelf.calls, calls);
    let got = get(&mut shelf, &id).unwrap();
    assert_eq!((got.area.as_str(), got.name.as_str(), got.address.as_str()), ("a", "n", "d"));
}

#[test]
fn update_is_reflected_by_the_next_fetch() {
    let mut shelf = Shelf::new();
    let id = create(&mut shelf, record(None, "a", "n", "d")).unwrap().id.unwrap();
    let echo = update(&mut shelf, &id, record(Some(&id), "a2", "n2", "d2")).unwrap();
    assert_eq!(echo.id.as_deref(), Some(id.as_str()));
    let got = get(&mut shelf, &id).unwrap();
    assert_eq!(got.id.as_deref(), Some(id.as_str()));
    assert_eq!((got.area.as_str(), got.name.as_str(), got.address.as_str()), ("a2", "n2", "d2"));
    let echo = update(&mut shelf, &id, record(None, "a3", "n3", "d3")).unwrap();
    assert_eq!(echo.id.as_deref(), Some(id.as_str()));
    let got = get(&mut shelf, &id).unwrap();
    assert_eq!((got.area.as_str(), got.name.as_str(), got.address.as_str()), ("a3", "n3", "d3"));
}

#[test]
fn update_of_an_unknown_identifier_is_not_found() {
    let mut shelf = Shelf::new();
    let out = update(&mut shelf, "nowhere", record(None, "a", "n", "d"));
    assert_eq!(out.err(), Some(Error::NotFound));
    assert!(shelf.documents.is_empty());
}

#[test]
fn deleted_record_is_not_found() {
    let mut shelf = Shelf::new();
    let id = create(&mut shelf, record(None, "a", "n", "d")).unwrap().id.unwrap();
    assert_eq!(delete(&mut shelf, &id).unwrap().id, id);
    assert_eq!(get(&mut shelf, &id).err(), Some(Error::NotFound));
    assert_eq!(delete(&mut shelf, &id).err(), Some(Error::NotFound));
}

#[test]
fn search_without_term_lists_everything_stored() {
    let mut shelf = Shelf::new();
    assert_eq!(search(&mut shelf, None).unwrap().onsens.len(), 0);
    let a = create(&mut shelf, record(None, "a1", "n1", "d1")).unwrap().id.unwrap();
    let b = create(&mut shelf, record(None, "a2", "n2", "d2")).unwrap().id.unwrap();
    let c = create(&mut shelf, record(None, "a3", "n3", "d3")).unwrap().id.unwrap();
    delete(&mut shelf, &b).unwrap();
    let list = search(&mut shelf, None).unwrap();
    let mut ids: Vec<String> = list.onsens.iter().map(|o| o.id.clone().unwrap()).collect();
    ids.sort();
    let mut expected = vec![a, c];
    expected.sort();
    assert_eq!(ids, expected);
    assert_eq!(search(&mut shelf, Some("")).unwrap().onsens.len(), 2);
}

#[test]
fn search_with_term_finds_name_and_address() {
    let mut shelf = Shelf::new();
    let a = create(&mut shelf, record(None, "鳴子", "初音旅館", "宮城県大崎市")).unwrap().id.unwrap();
    let b = create(&mut shelf, record(None, "秋保", "佐勘", "宮城県仙台市")).unwrap().id.unwrap();
    let c = create(&mut shelf, record(None, "仙台", "別館", "山形県")).unwrap().id.unwrap();
    let by_name = search(&mut shelf, Some("初音")).unwrap();
    assert!(by_name.onsens.iter().any(|o| o.id.as_deref() == Some(a.as_str())));
    let by_address = search(&mut shelf, Some("仙台")).unwrap();
    assert!(by_address.onsens.iter().any(|o| o.id.as_deref() == Some(b.as_str())));
    assert!(!by_address.onsens.iter().any(|o| o.id.as_deref() == Some(c.as_str())));
}

#[test]
fn hatsune_ryokan_scenario() {
    let mut shelf = Shelf::new();
    let made = create(&mut shelf, record(None, "東鳴子温泉", "初音旅館", "宮城県仙台市")).unwrap();
    assert!(made.id.is_some());
    let id = made.id.unwrap();
    let got = get(&mut shelf, &id).unwrap();
    assert_eq!(got.area, "東鳴子温泉");
    assert_eq!(got.name, "初音旅館");
    assert_eq!(got.address, "宮城県仙台市");
    let list = search(&mut shelf, Some("初音")).unwrap();
    assert!(list.onsens.iter().any(|o| o.id.as_deref() == Some(id.as_str())));
    assert_eq!(delete(&mut shelf, &id).unwrap().id, id);
    assert_eq!(get(&mut shelf, &id).err(), Some(Error::NotFound));
}
