use rustrest::fields::FieldMap;
use rustrest::history::{History, HistoryEntry, Timestamp};
use rustrest::request::{HttpMethod, HttpRequest};

fn request(url: &str) -> HttpRequest {
    HttpRequest { method: HttpMethod::Get, url: url.to_string(), headers: FieldMap::new(), query: FieldMap::new(), body: None }
}

#[test]
fn history_keeps_newest_up_to_max() {
    let mut h = History::new();
    for n in 0..5u16 {
        h.record(request(&format!("http://h/{n}")), 200 + n, 1, Timestamp { secs: n as i64, nanos: 0 }, 3);
    }
    assert_eq!(h.entries.len(), 3);
    assert_eq!(h.entries[0].request.url, "http://h/4");
    assert_eq!(h.entries[0].id, 5);
    assert_eq!(h.entries[2].request.url, "http://h/2");
}

#[test]
fn history_first_id_is_one_and_zero_max_keeps_nothing() {
    let mut h = History::new();
    assert_eq!(h.next_id(), 1);
    h.record(request("http://h/"), 200, 1, Timestamp { secs: 0, nanos: 0 }, 0);
    assert!(h.entries.is_empty());
}

fn entry(id: u64) -> HistoryEntry {
    HistoryEntry { id, timestamp: Timestamp { secs: 0, nanos: 0 }, request: request("http://h/"), status: 200, elapsed_ms: 1 }
}

#[test]
fn push_all_keeps_newest_first() {
    let mut h = History::new();
    h.push_all((1..=5).map(entry).collect(), 2);
    assert_eq!(h.entries.len(), 2);
    assert_eq!(h.entries[0].id, 5);
    assert_eq!(h.entries[1].id, 4);
    h.push_all(vec![], 2);
    assert_eq!(h.entries.len(), 2);
}
