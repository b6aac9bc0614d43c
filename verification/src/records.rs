//! The stored records the HTTP side serves, and their decoding from rows as
//! the data store returns them.
//!
//! A row holds the column values as plain data. Decoding copies them into the
//! record and resolves the type tag of a subscription; a tag that names no
//! known type cannot be decoded.

use vstd::prelude::*;
use vstd::utf8::{encode_utf8, encode_utf8_decode_utf8};

verus! {

/// A point in time: whole seconds since the Unix epoch, and the nanoseconds
/// into that second.
#[derive(Debug, Clone, Copy, PartialEq, Eq, Structural)]
pub struct Timestamp {
    pub secs: i64,
    pub nanos: u32,
}

/// The kind of source a subscription polls.
#[derive(Debug, Clone, Copy, PartialEq, Eq, Structural)]
pub enum SubscriptionType {
    Webpage,
    Rss,
    Api,
}

/// A feed, page or API endpoint that is polled periodically.
#[derive(Debug, PartialEq, Eq)]
pub struct Subscription {
    pub id: i32,
    pub label: String,
    pub user_id: i32,
    pub url: String,
    pub subscription_type: SubscriptionType,
    /// In seconds.
    pub polling_interval: i32,
    pub last_checked: Option<Timestamp>,
    pub created_at: Timestamp,
}

/// A row of the subscriptions table, with the type still a text tag.
#[derive(Debug, PartialEq, Eq)]
pub struct SubscriptionRow {
    pub id: i32,
    pub label: String,
    pub user_id: i32,
    pub url: String,
    /// The column `type`.
    pub type_tag: String,
    pub polling_interval: i32,
    pub last_checked: Option<Timestamp>,
    pub created_at: Timestamp,
}

/// An item fetched for a subscription.
#[derive(Debug, PartialEq, Eq)]
pub struct Article {
    pub id: i32,
    pub subscription_id: i32,
    pub title: String,
    pub content: Option<String>,
    pub source_url: Option<String>,
    pub unique_identifier: String,
    pub published_at: Option<Timestamp>,
    pub fetched_at: Timestamp,
    /// An opaque JSON document, as text.
    pub data: Option<String>,
}

/// A row of the articles table.
#[derive(Debug, PartialEq, Eq)]
pub struct ArticleRow {
    pub id: i32,
    pub subscription_id: i32,
    pub title: String,
    pub content: Option<String>,
    pub source_url: Option<String>,
    pub unique_identifier: String,
    pub published_at: Option<Timestamp>,
    pub fetched_at: Timestamp,
    pub data: Option<String>,
}

/// The type that a tag names, if any. Tags are lower case and matched
/// exactly.
pub open spec fn type_of_tag(tag: Seq<char>) -> Option<SubscriptionType> {
    if tag == "webpage"@ {
        Some(SubscriptionType::Webpage)
    } else if tag == "rss"@ {
        Some(SubscriptionType::Rss)
    } else if tag == "api"@ {
        Some(SubscriptionType::Api)
    } else {
        None
    }
}

/// The tag under which a type is stored and served.
pub open spec fn tag_of_type(kind: SubscriptionType) -> Seq<char> {
    match kind {
        SubscriptionType::Webpage => "webpage"@,
        SubscriptionType::Rss => "rss"@,
        SubscriptionType::Api => "api"@,
    }
}

/// Whether two strings hold the same text.
fn same_text(a: &str, b: &str) -> (same: bool)
    ensures
        same == (a@ == b@),
{
    let x = a.as_bytes();
    let y = b.as_bytes();
    proof {
        encode_utf8_decode_utf8(a@);
        encode_utf8_decode_utf8(b@);
    }
    if x.len() != y.len() {
        return false;
    }
    let mut i: usize = 0;
    while i < x.len()
        invariant
            i <= x.len(),
            x@.len() == y@.len(),
            forall|j: int| 0 <= j < i ==> x@[j] == y@[j],
            x@ == encode_utf8(a@),
            y@ == encode_utf8(b@),
            vstd::utf8::decode_utf8(encode_utf8(a@)) == a@,
            vstd::utf8::decode_utf8(encode_utf8(b@)) == b@,
        decreases x.len() - i,
    {
        if x[i] != y[i] {
            return false;
        }
        i += 1;
    }
    assert(x@ =~= y@);
    true
}

impl SubscriptionType {
    /// Resolves a stored tag. `None` means that the tag names no known type.
    pub fn from_tag(tag: &str) -> (kind: Option<SubscriptionType>)
        ensures
            kind == type_of_tag(tag@),
    {
        if same_text(tag, "webpage") {
            Some(SubscriptionType::Webpage)
        } else if same_text(tag, "rss") {
            Some(SubscriptionType::Rss)
        } else if same_text(tag, "api") {
            Some(SubscriptionType::Api)
        } else {
            None
        }
    }

    /// The tag under which this type is stored and served.
    pub fn tag(&self) -> (tag: &'static str)
        ensures
            tag@ == tag_of_type(*self),
    {
        match self {
            SubscriptionType::Webpage => "webpage",
            SubscriptionType::Rss => "rss",
            SubscriptionType::Api => "api",
        }
    }
}

/// Every type is found again under its own tag, and only there.
pub proof fn tags_and_types_correspond(kind: SubscriptionType, tag: Seq<char>)
    ensures
        type_of_tag(tag_of_type(kind)) == Some(kind),
        type_of_tag(tag) == Some(kind) <==> tag == tag_of_type(kind),
{
    reveal_strlit("webpage");
    reveal_strlit("rss");
    reveal_strlit("api");
    assert("webpage"@.len() == 7);
    assert("rss"@[0] == 'r');
    assert("api"@[0] == 'a');
}

/// Whether `row` can be decoded: its tag names a known type.
pub open spec fn decodable(row: SubscriptionRow) -> bool {
    type_of_tag(row.type_tag@) is Some
}

/// The subscription that a decodable row stands for.
pub open spec fn decoded(row: SubscriptionRow) -> Subscription {
    Subscription {
        id: row.id,
        label: row.label,
        user_id: row.user_id,
        url: row.url,
        subscription_type: type_of_tag(row.type_tag@).unwrap(),
        polling_interval: row.polling_interval,
        last_checked: row.last_checked,
        created_at: row.created_at,
    }
}

/// The article that a row stands for.
pub open spec fn article_of(row: ArticleRow) -> Article {
    Article {
        id: row.id,
        subscription_id: row.subscription_id,
        title: row.title,
        content: row.content,
        source_url: row.source_url,
        unique_identifier: row.unique_identifier,
        published_at: row.published_at,
        fetched_at: row.fetched_at,
        data: row.data,
    }
}

/// A copy of a text column that may be null.
fn copy_nullable(text: &Option<String>) -> (copy: Option<String>)
    ensures
        copy == *text,
{
    match text {
        Some(s) => Some(s.clone()),
        None => None,
    }
}

impl SubscriptionRow {
    /// Whether the row's tag names a known type.
    pub fn is_decodable(&self) -> (ok: bool)
        ensures
            ok == decodable(*self),
    {
        SubscriptionType::from_tag(self.type_tag.as_str()).is_some()
    }
}

impl Subscription {
    /// Decodes one row of the subscriptions table.
    pub fn from_row(row: &SubscriptionRow) -> (subscription: Subscription)
        requires
            decodable(*row),
        ensures
            subscription == decoded(*row),
    {
        let kind = SubscriptionType::from_tag(row.type_tag.as_str());
        Subscription {
            id: row.id,
            label: row.label.clone(),
            user_id: row.user_id,
            url: row.url.clone(),
            subscription_type: kind.unwrap(),
            polling_interval: row.polling_interval,
            last_checked: row.last_checked,
            created_at: row.created_at,
        }
    }
}

impl Article {
    /// Decodes one row of the articles table.
    pub fn from_row(row: &ArticleRow) -> (article: Article)
        ensures
            article == article_of(*row),
    {
        Article {
            id: row.id,
            subscription_id: row.subscription_id,
            title: row.title.clone(),
            content: copy_nullable(&row.content),
            source_url: copy_nullable(&row.source_url),
            unique_identifier: row.unique_identifier.clone(),
            published_at: row.published_at,
            fetched_at: row.fetched_at,
            data: copy_nullable(&row.data),
        }
    }
}

/// The position of the first row that cannot be decoded, if there is one.
pub fn first_undecodable(rows: &Vec<SubscriptionRow>) -> (position: Option<usize>)
    ensures
        match position {
            Some(i) => {
                &&& i < rows@.len()
                &&& !decodable(rows@[i as int])
                &&& forall|j: int| 0 <= j < i ==> decodable(#[trigger] rows@[j])
            },
            None => forall|j: int| 0 <= j < rows@.len() ==> decodable(#[trigger] rows@[j]),
        },
{
    let mut i: usize = 0;
    while i < rows.len()
        invariant
            i <= rows@.len(),
            forall|j: int| 0 <= j < i ==> decodable(#[trigger] rows@[j]),
        decreases rows.len() - i,
    {
        if !rows[i].is_decodable() {
            return Some(i);
        }
        i += 1;
    }
    None
}

/// Decodes the rows of the subscriptions table, all of them and in order.
pub fn get_items(rows: &Vec<SubscriptionRow>) -> (items: Vec<Subscription>)
    requires
        forall|j: int| 0 <= j < rows@.len() ==> decodable(#[trigger] rows@[j]),
    ensures
        items@.len() == rows@.len(),
        forall|j: int| 0 <= j < rows@.len() ==> #[trigger] items@[j] == decoded(rows@[j]),
{
    let mut items: Vec<Subscription> = Vec::new();
    let mut i: usize = 0;
    while i < rows.len()
        invariant
            i <= rows@.len(),
            items@.len() == i,
            forall|j: int| 0 <= j < rows@.len() ==> decodable(#[trigger] rows@[j]),
            forall|j: int| 0 <= j < i ==> #[trigger] items@[j] == decoded(rows@[j]),
        decreases rows.len() - i,
    {
        items.push(Subscription::from_row(&rows[i]));
        i += 1;
    }
    items
}

} // verus!
