use worldping::codec::Reply;
use worldping::record::Record;

#[test]
fn placeholder_is_unseen_with_no_time() {
    let rec = Record::placeholder(0x0A000001);
    assert_eq!(rec.address, "10.0.0.1");
    assert_eq!(rec.time, None);
    assert!(!rec.seen);
}

#[test]
fn overwrite_rekeys_and_marks_seen() {
    let mut rec = Record::placeholder(0);
    let reply = Reply { from: 0xC0A80001, sent: 100 };
    rec.overwrite(&reply, 130);
    assert_eq!(rec.address, "192.168.0.1");
    assert_eq!(rec.time, Some(30));
    assert!(rec.seen);
}

#[test]
fn prefilled_sweep_leaves_one_unseen_of_three() {
    // Prefill three addresses, then let replies arrive from two of them.
    let mut rows: Vec<Record> = (1u32..=3).map(Record::placeholder).collect();
    rows[0].overwrite(&Reply { from: 1, sent: 500 }, 512);
    rows[2].overwrite(&Reply { from: 3, sent: 500 }, 505);
    let unseen: Vec<&Record> = rows.iter().filter(|r| !r.seen).collect();
    assert_eq!(unseen.len(), 1);
    assert_eq!(unseen[0].address, "0.0.0.2");
    assert_eq!(unseen[0].time, None);
    for row in rows.iter().filter(|r| r.seen) {
        assert!(row.time.is_some());
    }
    assert_eq!(rows[0].time, Some(12));
    assert_eq!(rows[2].time, Some(5));
}

#[test]
fn record_from_reply_matches_overwrite() {
    let reply = Reply { from: 0x7F000001, sent: 10 };
    let rec = Record::from_reply(&reply, 11);
    assert_eq!(rec.address, "127.0.0.1");
    assert_eq!(rec.time, Some(1));
    assert!(rec.seen);
}
