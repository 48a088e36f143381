//! The extended state store and the offer book on their own.

use art_gallery::{
    Error, ExtendedInfo, ExtendedStore, Gallery, OfferBook, Origin, ReportReason,
};

const SHOWN: ExtendedInfo =
    ExtendedInfo { display_flag: true, report: ReportReason::Unreported, frozen: false };
const FROZEN: ExtendedInfo =
    ExtendedInfo { display_flag: false, report: ReportReason::Duplicate, frozen: true };

#[test]
fn unwritten_token_reads_as_blank() {
    let store = ExtendedStore::new();
    let blank = ExtendedInfo { display_flag: false, report: ReportReason::Unreported, frozen: false };
    assert_eq!(store.get(0, 0), blank);
    assert_eq!(store.get(u64::MAX, 17), blank);
    assert_eq!(store.lookup(0, 0), None);
    assert_eq!(ExtendedInfo::default(), blank);
}

#[test]
fn put_overwrites_the_whole_record() {
    let mut store = ExtendedStore::new();
    store.put(1, 2, SHOWN);
    assert_eq!(store.get(1, 2), SHOWN);
    assert_eq!(store.lookup(1, 2), Some(SHOWN));
    store.put(1, 2, FROZEN);
    assert_eq!(store.get(1, 2), FROZEN);
    assert_eq!(store.lookup(1, 2), Some(FROZEN));
}

#[test]
fn put_leaves_other_tokens_alone() {
    let mut store = ExtendedStore::new();
    store.put(1, 2, SHOWN);
    store.put(2, 1, FROZEN);
    store.put(1, 3, FROZEN);
    assert_eq!(store.get(1, 2), SHOWN);
    assert_eq!(store.get(2, 1), FROZEN);
    assert_eq!(store.get(1, 3), FROZEN);
    assert_eq!(store.lookup(2, 2), None);
    assert_eq!(store.lookup(3, 1), None);
}

#[test]
fn stores_compare_by_their_records() {
    let mut a = ExtendedStore::new();
    let mut b = ExtendedStore::new();
    assert!(a == b);
    a.put(1, 2, SHOWN);
    assert!(a != b);
    assert!(b != a);
    a.put(5, 5, FROZEN);
    b.put(5, 5, FROZEN);
    b.put(1, 2, FROZEN);
    assert!(a != b);
    b.put(1, 2, SHOWN);
    assert!(a == b);
    let copy = a.clone();
    assert!(copy == a);
    a.put(5, 5, SHOWN);
    assert!(copy != a);
    assert_eq!(copy.get(5, 5), FROZEN);
}

#[test]
fn a_written_blank_record_differs_from_none() {
    let mut a = ExtendedStore::new();
    a.put(0, 0, ExtendedInfo::default());
    assert_eq!(a.lookup(0, 0), Some(ExtendedInfo::default()));
    assert!(a != ExtendedStore::new());
}

#[test]
fn book_keeps_one_price_per_token_and_bidder() {
    let mut book = OfferBook::new();
    assert_eq!(book.get(0, 0, 7), None);
    book.insert(0, 0, 7, 100);
    book.insert(0, 0, 8, 200);
    book.insert(0, 1, 7, 300);
    book.insert(1, 0, 7, 400);
    assert_eq!(book.get(0, 0, 7), Some(100));
    assert_eq!(book.get(0, 0, 8), Some(200));
    assert_eq!(book.get(0, 1, 7), Some(300));
    assert_eq!(book.get(1, 0, 7), Some(400));
    book.insert(0, 0, 7, 150);
    assert_eq!(book.get(0, 0, 7), Some(150));
    assert_eq!(book.get(0, 0, 8), Some(200));
}

#[test]
fn book_removes_one_offer_only() {
    let mut book = OfferBook::new();
    book.insert(0, 0, 7, 100);
    book.insert(0, 0, 8, 200);
    book.insert(0, 0, 9, u128::MAX);
    assert_eq!(book.remove(0, 0, 8), Some(200));
    assert_eq!(book.remove(0, 0, 8), None);
    assert_eq!(book.get(0, 0, 8), None);
    assert_eq!(book.get(0, 0, 7), Some(100));
    assert_eq!(book.get(0, 0, 9), Some(u128::MAX));
    assert_eq!(book.remove(0, 0, 7), Some(100));
    assert_eq!(book.remove(0, 0, 9), Some(u128::MAX));
    assert!(book == OfferBook::new());
}

#[test]
fn books_compare_by_their_offers() {
    let mut a = OfferBook::new();
    let mut b = OfferBook::new();
    a.insert(1, 1, 1, 10);
    a.insert(2, 2, 2, 20);
    b.insert(2, 2, 2, 20);
    assert!(a != b);
    b.insert(1, 1, 1, 10);
    assert!(a == b);
    b.insert(1, 1, 1, 11);
    assert!(a != b);
    let copy = a.clone();
    assert_eq!(a.remove(1, 1, 1), Some(10));
    assert_eq!(copy.get(1, 1, 1), Some(10));
    assert!(copy != a);
}

#[test]
fn galleries_compare_by_curator_records_and_offers() {
    let mut a = Gallery::new();
    let mut b = Gallery::new();
    assert!(a == b);
    assert_eq!(a.curator(), 0);
    assert_eq!(a.set_curator(Origin::Root, 5), Ok(()));
    assert!(a != b);
    assert_eq!(b.set_curator(Origin::Root, 5), Ok(()));
    assert!(a == b);
    a.infos.put(1, 1, SHOWN);
    assert!(a != b);
    b.infos.put(1, 1, SHOWN);
    a.offers.insert(1, 1, 9, 3);
    assert!(a != b);
    let copy = a.clone();
    assert!(copy == a);
    assert_eq!(copy.offer(1, 1, 9), Some(3));
    assert_eq!(copy.token_extended_info(1, 1), Some(SHOWN));
    assert_eq!(copy.token_extended_info(1, 2), None);
}

#[test]
fn origins_say_who_signed() {
    assert_eq!(Origin::Signed(3).ensure_signed(), Ok(3));
    assert_eq!(Origin::Root.ensure_signed(), Err(Error::BadOrigin));
    assert_eq!(Origin::Unsigned.ensure_signed(), Err(Error::BadOrigin));
    assert_eq!(Origin::Root.ensure_root(), Ok(()));
    assert_eq!(Origin::Signed(0).ensure_root(), Err(Error::BadOrigin));
    assert_eq!(Origin::Unsigned.ensure_root(), Err(Error::BadOrigin));
}
