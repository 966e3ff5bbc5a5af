//! The background fetcher's side of the hand-off: turning fetched articles
//! into display records, pushing them onto the record queue one by one, and
//! deciding, message by message, whether a fetch should run and with which
//! key. The network call itself is I/O and lives with the caller; everything
//! here works on plain values.

use vstd::prelude::*;

use std::sync::mpsc::Sender;

use crate::channels::send_card;
use crate::headlines::{Msg, NewsCardData};

verus! {

/// The placeholder shown for every card: the fetched articles carry no
/// description the application would use.
pub open spec fn default_description() -> Seq<char> {
    "default description"@
}

/// A fetched article the application shows: its title and link are non-empty.
/// An article without either cannot yield a well-formed record, since the
/// record copies both; callers leave such articles out.
pub open spec fn well_formed_item(item: (String, String)) -> bool {
    &&& item.0@.len() > 0
    &&& item.1@.len() > 0
}

/// Builds the one display record a fetched article yields: its title and
/// link, with the fixed placeholder description. Every record has a
/// non-empty title and url.
pub fn make_card(title: String, url: String) -> (card: NewsCardData)
    requires
        title@.len() > 0,
        url@.len() > 0,
    ensures
        card.title@ == title@,
        card.url@ == url@,
        card.description@ == default_description(),
        card.title@.len() > 0,
        card.url@.len() > 0,
{
    NewsCardData { title, description: "default description".to_owned(), url }
}

/// The record a fetched article, given as its title and url, yields.
pub open spec fn is_card_of(card: NewsCardData, item: (String, String)) -> bool {
    &&& card.title@ == item.0@
    &&& card.url@ == item.1@
    &&& card.description@ == default_description()
}

/// Each fetched article yields exactly one display record, in the order the
/// articles came, each with a non-empty title and url.
pub fn cards_from_articles(items: &Vec<(String, String)>) -> (cards: Vec<NewsCardData>)
    requires
        forall|i: int| 0 <= i < items@.len() ==> #[trigger] well_formed_item(items@[i]),
    ensures
        cards@.len() == items@.len(),
        forall|i: int| 0 <= i < items@.len() ==>
            #[trigger] is_card_of(cards@[i], items@[i]),
        forall|i: int| 0 <= i < items@.len() ==>
            (#[trigger] cards@[i]).title@.len() > 0 && cards@[i].url@.len() > 0,
{
    let mut cards: Vec<NewsCardData> = Vec::new();
    let mut i: usize = 0;
    while i < items.len()
        invariant
            i <= items@.len(),
            cards@.len() == i,
            forall|k: int| 0 <= k < items@.len() ==> #[trigger] well_formed_item(items@[k]),
            forall|j: int| 0 <= j < i ==> #[trigger] is_card_of(cards@[j], items@[j]),
            forall|j: int| 0 <= j < i ==>
                (#[trigger] cards@[j]).title@.len() > 0 && cards@[j].url@.len() > 0,
        decreases items@.len() - i,
    {
        assert(well_formed_item(items@[i as int]));
        let card = make_card(items[i].0.clone(), items[i].1.clone());
        cards.push(card);
        i = i + 1;
    }
    cards
}

/// Pushes one record per fetched article onto the record queue, in the order
/// the articles came, and reports how many the queue accepted. A record is
/// refused only when the receiving side is gone, so nothing more than the
/// count can be promised of the queue.
pub fn publish_articles(tx: &Sender<NewsCardData>, items: Vec<(String, String)>) -> (sent: usize)
    requires
        forall|i: int| 0 <= i < items@.len() ==> #[trigger] well_formed_item(items@[i]),
    ensures
        sent <= items@.len(),
{
    let mut cards = cards_from_articles(&items);
    let total: usize = items.len();
    let mut sent: usize = 0;
    while cards.len() > 0
        invariant
            sent + cards@.len() <= total,
            total == items@.len(),
        decreases cards@.len(),
    {
        let card = cards.remove(0);
        if send_card(tx, card) {
            sent = sent + 1;
        }
    }
    sent
}

/// The key the fetcher holds after a control message: a newly set key
/// replaces the stored one, a refresh keeps it.
pub open spec fn next_key(key: Seq<char>, msg: Msg) -> Seq<char> {
    match msg {
        Msg::ApiKeySet(k) => k@,
        Msg::Refresh => key,
    }
}

/// One step of the fetcher's loop: given the stored key and a control
/// message, yields the key to store and, exactly when that key is non-empty,
/// the key to fetch with. An empty key never triggers a fetch.
pub fn fetcher_step(key: &String, msg: Msg) -> (r: (String, Option<String>))
    ensures
        r.0@ == next_key(key@, msg),
        r.1 is Some <==> next_key(key@, msg).len() > 0,
        r.1 matches Some(fetch_key) ==> fetch_key@ == next_key(key@, msg),
{
    let new_key: String = match msg {
        Msg::ApiKeySet(k) => k,
        Msg::Refresh => key.clone(),
    };
    if new_key.as_str().is_empty() {
        (new_key, None)
    } else {
        let fetch_key = new_key.clone();
        (new_key, Some(fetch_key))
    }
}

/// Whether the fetcher fetches once at startup, before any message arrives:
/// exactly when the key loaded from storage is non-empty.
pub fn startup_fetch_key(key: &String) -> (r: Option<String>)
    ensures
        r is Some <==> key@.len() > 0,
        r matches Some(fetch_key) ==> fetch_key@ == key@,
{
    if key.as_str().is_empty() {
        None
    } else {
        Some(key.clone())
    }
}

} // verus!
