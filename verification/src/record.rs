//! The attribute record and its mapping onto the nine fixed store keys.
//!
//! A record is read by querying each known key and decoding present,
//! valid-UTF-8 values; anything else becomes an absent field. A record is
//! written by setting one key per present field; absent fields touch
//! nothing, so a write never clears a key that an earlier write (or
//! another program) set.

use vstd::prelude::*;
use vstd::string::StrSliceExecFns;
use vstd::utf8::decode_utf8;
use vstd::utf8::encode_utf8;
use vstd::utf8::encode_utf8_decode_utf8;
use vstd::utf8::encode_utf8_valid_utf8;
use vstd::utf8::valid_utf8;

use crate::codec::csv;
use crate::codec::join_commas;
use crate::codec::join_tags;
use crate::codec::lemma_split_join;
use crate::codec::split_commas;
use crate::store::utf8_to_string;
use crate::store::xattr_get_raw;
use crate::store::xattr_set_raw;
use crate::store::StoreError;

verus! {

/// The metadata record of one filesystem object. Every field is optional:
/// an absent field was not set on the object (or held bytes that were not
/// valid UTF-8), and an absent field is never written.
#[derive(Debug, Clone)]
pub struct Attributes {
    /// Free-text comment; stored under `user.xdg.comment`.
    pub comment: Option<String>,
    /// The program that produced the file; stored under `user.xdg.creator`.
    pub creator: Option<String>,
    /// Natural language of the content; stored under `user.xdg.language`.
    pub language: Option<String>,
    /// Ordered tag list; stored comma-joined under `user.xdg.tags`.
    /// Not part of the XDG convention proper, but a de-facto standard of
    /// several file managers. A tag must not itself contain a comma.
    pub tags: Option<Vec<String>>,
    /// URL the file was downloaded from; stored under `user.xdg.origin.url`.
    pub origin_url: Option<String>,
    /// Referring URL; stored under `user.xdg.referrer.url`.
    pub origin_referrer: Option<String>,
    /// Subject of the originating email; stored under
    /// `user.xdg.origin.email.subject`.
    pub origin_email_subject: Option<String>,
    /// Sender of the originating email; stored under
    /// `user.xdg.origin.email.from`.
    pub origin_email_from: Option<String>,
    /// Message id of the originating email; stored under
    /// `user.xdg.origin.email.message-id`.
    pub origin_email_message_id: Option<String>,
}

/// The mathematical value of an [`Attributes`] record: each text field as
/// a character sequence, the tag list as a sequence of character
/// sequences.
#[verifier::ext_equal]
pub struct AttributesView {
    pub comment: Option<Seq<char>>,
    pub creator: Option<Seq<char>>,
    pub language: Option<Seq<char>>,
    pub tags: Option<Seq<Seq<char>>>,
    pub origin_url: Option<Seq<char>>,
    pub origin_referrer: Option<Seq<char>>,
    pub origin_email_subject: Option<Seq<char>>,
    pub origin_email_from: Option<Seq<char>>,
    pub origin_email_message_id: Option<Seq<char>>,
}

/// The store's view of one filesystem object, restricted to the nine known
/// keys: the raw byte value under each key, or `None` where the key is not
/// set.
#[verifier::ext_equal]
pub struct StoredView {
    pub comment: Option<Seq<u8>>,
    pub creator: Option<Seq<u8>>,
    pub language: Option<Seq<u8>>,
    pub tags: Option<Seq<u8>>,
    pub origin_url: Option<Seq<u8>>,
    pub origin_referrer: Option<Seq<u8>>,
    pub origin_email_subject: Option<Seq<u8>>,
    pub origin_email_from: Option<Seq<u8>>,
    pub origin_email_message_id: Option<Seq<u8>>,
}

impl View for Attributes {
    type V = AttributesView;

    open spec fn view(&self) -> AttributesView {
        AttributesView {
            comment: self.comment.deep_view(),
            creator: self.creator.deep_view(),
            language: self.language.deep_view(),
            tags: self.tags.deep_view(),
            origin_url: self.origin_url.deep_view(),
            origin_referrer: self.origin_referrer.deep_view(),
            origin_email_subject: self.origin_email_subject.deep_view(),
            origin_email_from: self.origin_email_from.deep_view(),
            origin_email_message_id: self.origin_email_message_id.deep_view(),
        }
    }
}

/// The text a stored byte value stands for: absent stays absent, and bytes
/// that are not valid UTF-8 are folded into absence as well.
pub open spec fn decoded_text(b: Option<Seq<u8>>) -> Option<Seq<char>> {
    match b {
        Option::None => Option::None,
        Option::Some(bs) => if valid_utf8(bs) {
            Option::Some(decode_utf8(bs))
        } else {
            Option::None
        },
    }
}

/// The bytes a present text field is stored as: its UTF-8 encoding.
pub open spec fn encoded_bytes(t: Option<Seq<char>>) -> Option<Seq<u8>> {
    match t {
        Option::None => Option::None,
        Option::Some(s) => Option::Some(encode_utf8(s)),
    }
}

/// The record that a given store state reads as: each field decoded from
/// its key, the tag field further split on commas.
pub open spec fn decode_record(s: StoredView) -> AttributesView {
    AttributesView {
        comment: decoded_text(s.comment),
        creator: decoded_text(s.creator),
        language: decoded_text(s.language),
        tags: match decoded_text(s.tags) {
            Option::None => Option::None,
            Option::Some(t) => Option::Some(split_commas(t)),
        },
        origin_url: decoded_text(s.origin_url),
        origin_referrer: decoded_text(s.origin_referrer),
        origin_email_subject: decoded_text(s.origin_email_subject),
        origin_email_from: decoded_text(s.origin_email_from),
        origin_email_message_id: decoded_text(s.origin_email_message_id),
    }
}

/// The store state that writing a record asks for: each present field
/// UTF-8 encoded under its key, the tag list joined with commas first;
/// absent fields ask for nothing.
pub open spec fn encode_record(v: AttributesView) -> StoredView {
    StoredView {
        comment: encoded_bytes(v.comment),
        creator: encoded_bytes(v.creator),
        language: encoded_bytes(v.language),
        tags: match v.tags {
            Option::None => Option::None,
            Option::Some(ts) => Option::Some(encode_utf8(join_commas(ts))),
        },
        origin_url: encoded_bytes(v.origin_url),
        origin_referrer: encoded_bytes(v.origin_referrer),
        origin_email_subject: encoded_bytes(v.origin_email_subject),
        origin_email_from: encoded_bytes(v.origin_email_from),
        origin_email_message_id: encoded_bytes(v.origin_email_message_id),
    }
}

/// Decodes one raw store value: an absent key stays absent, bytes that are
/// not valid UTF-8 are folded into absence, valid UTF-8 becomes the text.
pub fn decode_value(raw: Option<Vec<u8>>) -> (r: Option<String>)
    ensures
        r.deep_view() == decoded_text(raw.deep_view()),
{
    match raw {
        Option::None => Option::None,
        Option::Some(bytes) => {
            proof {
                assert(bytes.deep_view() =~= bytes@);
            }
            utf8_to_string(bytes)
        },
    }
}

/// One key/value entry of the write plan, or nothing for an absent field.
pub open spec fn entry(k: Seq<char>, b: Option<Seq<u8>>) -> Seq<(Seq<char>, Seq<u8>)> {
    match b {
        Option::None => Seq::empty(),
        Option::Some(bs) => seq![(k, bs)],
    }
}

/// The write plan of a record: the key/value pairs that writing it sets,
/// one per present field, in the fixed key order.
pub open spec fn stored_entries_of(v: AttributesView) -> Seq<(Seq<char>, Seq<u8>)> {
    let s = encode_record(v);
    entry("user.xdg.comment"@, s.comment) + entry("user.xdg.creator"@, s.creator) + entry(
        "user.xdg.language"@,
        s.language,
    ) + entry("user.xdg.tags"@, s.tags) + entry("user.xdg.origin.url"@, s.origin_url) + entry(
        "user.xdg.referrer.url"@,
        s.origin_referrer,
    ) + entry("user.xdg.origin.email.subject"@, s.origin_email_subject) + entry(
        "user.xdg.origin.email.from"@,
        s.origin_email_from,
    ) + entry("user.xdg.origin.email.message-id"@, s.origin_email_message_id)
}

/// The executable pairs `v` agree with the ghost pairs `s`, key for key
/// and value for value.
pub open spec fn entries_match(v: Seq<(&str, Vec<u8>)>, s: Seq<(Seq<char>, Seq<u8>)>) -> bool {
    v.len() == s.len() && forall|i: int|
        0 <= i < s.len() ==> (#[trigger] v[i]).0@ == s[i].0 && v[i].1@ == s[i].1
}

/// Appends the entry of one text field to the write plan being built:
/// nothing for an absent field, the key with the UTF-8 bytes of the value
/// for a present one.
fn push_text_entry(
    out: &mut Vec<(&'static str, Vec<u8>)>,
    key: &'static str,
    value: &Option<String>,
    Ghost(done): Ghost<Seq<(Seq<char>, Seq<u8>)>>,
)
    requires
        entries_match(old(out)@, done),
    ensures
        entries_match(final(out)@, done + entry(key@, encoded_bytes(value.deep_view()))),
{
    match value {
        Option::None => {
            proof {
                assert(done + entry(key@, encoded_bytes(value.deep_view())) =~= done);
            }
        },
        Option::Some(s) => {
            let bytes = s.as_str().as_bytes_vec();
            out.push((key, bytes));
            proof {
                let e = entry(key@, encoded_bytes(value.deep_view()));
                assert(e =~= seq![(key@, encode_utf8(s@))]);
                assert(entries_match(out@, done + e));
            }
        },
    }
}

impl Attributes {
    /// Builds the record that nine raw store values decode to. This is the
    /// whole read-side mapping: each argument is what the store held under
    /// the corresponding key.
    pub fn from_stored(
        comment: Option<Vec<u8>>,
        creator: Option<Vec<u8>>,
        language: Option<Vec<u8>>,
        tags: Option<Vec<u8>>,
        origin_url: Option<Vec<u8>>,
        origin_referrer: Option<Vec<u8>>,
        origin_email_subject: Option<Vec<u8>>,
        origin_email_from: Option<Vec<u8>>,
        origin_email_message_id: Option<Vec<u8>>,
    ) -> (r: Attributes)
        ensures
            r@ == decode_record(
                (StoredView {
                    comment: comment.deep_view(),
                    creator: creator.deep_view(),
                    language: language.deep_view(),
                    tags: tags.deep_view(),
                    origin_url: origin_url.deep_view(),
                    origin_referrer: origin_referrer.deep_view(),
                    origin_email_subject: origin_email_subject.deep_view(),
                    origin_email_from: origin_email_from.deep_view(),
                    origin_email_message_id: origin_email_message_id.deep_view(),
                }),
            ),
    {
        let tags_field: Option<Vec<String>> = match decode_value(tags) {
            Option::None => Option::None,
            Option::Some(t) => Option::Some(csv(t.as_str())),
        };
        let r = Attributes {
            comment: decode_value(comment),
            creator: decode_value(creator),
            language: decode_value(language),
            tags: tags_field,
            origin_url: decode_value(origin_url),
            origin_referrer: decode_value(origin_referrer),
            origin_email_subject: decode_value(origin_email_subject),
            origin_email_from: decode_value(origin_email_from),
            origin_email_message_id: decode_value(origin_email_message_id),
        };
        r
    }

    /// The write plan of this record: one `(key, bytes)` pair per present
    /// field, in the fixed key order, the tag list comma-joined before
    /// encoding. Absent fields contribute nothing.
    pub fn stored_entries(&self) -> (r: Vec<(&'static str, Vec<u8>)>)
        ensures
            entries_match(r@, stored_entries_of(self@)),
    {
        let mut out: Vec<(&'static str, Vec<u8>)> = Vec::new();
        let ghost s = encode_record(self@);
        let ghost d0 = Seq::<(Seq<char>, Seq<u8>)>::empty();
        proof {
            assert(entries_match(out@, d0));
        }
        push_text_entry(&mut out, "user.xdg.comment", &self.comment, Ghost(d0));
        let ghost d1 = d0 + entry("user.xdg.comment"@, s.comment);
        push_text_entry(&mut out, "user.xdg.creator", &self.creator, Ghost(d1));
        let ghost d2 = d1 + entry("user.xdg.creator"@, s.creator);
        push_text_entry(&mut out, "user.xdg.language", &self.language, Ghost(d2));
        let ghost d3 = d2 + entry("user.xdg.language"@, s.language);
        let tags_text: Option<String> = match &self.tags {
            Option::None => Option::None,
            Option::Some(ts) => Option::Some(join_tags(ts)),
        };
        proof {
            assert(encoded_bytes(tags_text.deep_view()) == s.tags);
        }
        push_text_entry(&mut out, "user.xdg.tags", &tags_text, Ghost(d3));
        let ghost d4 = d3 + entry("user.xdg.tags"@, s.tags);
        push_text_entry(&mut out, "user.xdg.origin.url", &self.origin_url, Ghost(d4));
        let ghost d5 = d4 + entry("user.xdg.origin.url"@, s.origin_url);
        push_text_entry(&mut out, "user.xdg.referrer.url", &self.origin_referrer, Ghost(d5));
        let ghost d6 = d5 + entry("user.xdg.referrer.url"@, s.origin_referrer);
        push_text_entry(
            &mut out,
            "user.xdg.origin.email.subject",
            &self.origin_email_subject,
            Ghost(d6),
        );
        let ghost d7 = d6 + entry("user.xdg.origin.email.subject"@, s.origin_email_subject);
        push_text_entry(&mut out, "user.xdg.origin.email.from", &self.origin_email_from, Ghost(d7));
        let ghost d8 = d7 + entry("user.xdg.origin.email.from"@, s.origin_email_from);
        push_text_entry(
            &mut out,
            "user.xdg.origin.email.message-id",
            &self.origin_email_message_id,
            Ghost(d8),
        );
        let ghost d9 = d8 + entry("user.xdg.origin.email.message-id"@, s.origin_email_message_id);
        proof {
            assert(d9 =~= stored_entries_of(self@));
            assert(entries_match(out@, stored_entries_of(self@)));
        }
        out
    }

    /// Reads the record of the object at `path`: queries each of the nine
    /// keys once and decodes what came back. An unset key, a store-level
    /// read failure and a value that is not valid UTF-8 all yield an
    /// absent field, so the read itself never fails; the `Result` is kept
    /// so that a caller sees the same shape on read and write.
    pub fn read_file(path: &str) -> (r: Result<Attributes, StoreError>)
        ensures
            r is Ok,
    {
        let comment = xattr_get_raw(path, "user.xdg.comment");
        let creator = xattr_get_raw(path, "user.xdg.creator");
        let language = xattr_get_raw(path, "user.xdg.language");
        let tags = xattr_get_raw(path, "user.xdg.tags");
        let origin_url = xattr_get_raw(path, "user.xdg.origin.url");
        let origin_referrer = xattr_get_raw(path, "user.xdg.referrer.url");
        let origin_email_subject = xattr_get_raw(path, "user.xdg.origin.email.subject");
        let origin_email_from = xattr_get_raw(path, "user.xdg.origin.email.from");
        let origin_email_message_id = xattr_get_raw(path, "user.xdg.origin.email.message-id");
        Ok(
            Attributes::from_stored(
                comment,
                creator,
                language,
                tags,
                origin_url,
                origin_referrer,
                origin_email_subject,
                origin_email_from,
                origin_email_message_id,
            ),
        )
    }

    /// Writes every present field of this record to the object at `path`,
    /// one key per field in the fixed order of [`Attributes::stored_entries`];
    /// absent fields leave their keys untouched. Stops at the store's
    /// first refusal and reports it: keys already set stay set, nothing is
    /// rolled back. Whether each key write succeeds depends on the
    /// filesystem alone, so little can be promised of the outcome; a
    /// record with no present field asks for nothing and so always
    /// succeeds.
    pub fn write_file(&self, path: &str) -> (r: Result<(), StoreError>)
        ensures
            stored_entries_of(self@).len() == 0 ==> r is Ok,
    {
        let entries = self.stored_entries();
        let mut i: usize = 0;
        while i < entries.len()
            invariant
                entries@.len() == stored_entries_of(self@).len(),
            decreases entries.len() - i,
        {
            let pair = &entries[i];
            match xattr_set_raw(path, pair.0, &pair.1) {
                Result::Ok(_) => {},
                Result::Err(e) => {
                    return Err(StoreError { io: e });
                },
            }
            i += 1;
        }
        Ok(())
    }
}

impl Default for Attributes {
    /// The record with every field absent: writing it touches nothing.
    fn default() -> (r: Self)
        ensures
            r@ == (AttributesView {
                comment: Option::None,
                creator: Option::None,
                language: Option::None,
                tags: Option::None,
                origin_url: Option::None,
                origin_referrer: Option::None,
                origin_email_subject: Option::None,
                origin_email_from: Option::None,
                origin_email_message_id: Option::None,
            }),
    {
        Attributes {
            comment: Option::None,
            creator: Option::None,
            language: Option::None,
            tags: Option::None,
            origin_url: Option::None,
            origin_referrer: Option::None,
            origin_email_subject: Option::None,
            origin_email_from: Option::None,
            origin_email_message_id: Option::None,
        }
    }
}

/// Whether the write plan `s` holds an entry for the key `k`.
pub open spec fn plan_has_key(s: Seq<(Seq<char>, Seq<u8>)>, k: Seq<char>) -> bool {
    exists|i: int| 0 <= i < s.len() && (#[trigger] s[i]).0 == k
}

/// A key is in a concatenation of two plans exactly when it is in one of
/// them.
proof fn lemma_plan_has_key_concat(a: Seq<(Seq<char>, Seq<u8>)>, b: Seq<(Seq<char>, Seq<u8>)>)
    ensures
        forall|k: Seq<char>| #[trigger] plan_has_key(a + b, k) <==> plan_has_key(a, k)
            || plan_has_key(b, k),
{
    assert forall|k: Seq<char>|
        #[trigger] plan_has_key(a + b, k) <==> plan_has_key(a, k) || plan_has_key(b, k) by {
        if plan_has_key(a, k) {
            let i = choose|i: int| 0 <= i < a.len() && a[i].0 == k;
            assert((a + b)[i].0 == k);
        }
        if plan_has_key(b, k) {
            let i = choose|i: int| 0 <= i < b.len() && b[i].0 == k;
            assert((a + b)[a.len() + i].0 == k);
        }
        if plan_has_key(a + b, k) {
            let i = choose|i: int| 0 <= i < (a + b).len() && (a + b)[i].0 == k;
            if i < a.len() {
                assert(a[i].0 == k);
            } else {
                assert(b[i - a.len()].0 == k);
            }
        }
    }
}

/// The nine key names are pairwise distinct.
#[verifier::rlimit(100)]
proof fn lemma_keys_distinct()
    ensures
        "user.xdg.comment"@ != "user.xdg.creator"@,
        "user.xdg.comment"@ != "user.xdg.language"@,
        "user.xdg.comment"@ != "user.xdg.tags"@,
        "user.xdg.comment"@ != "user.xdg.origin.url"@,
        "user.xdg.comment"@ != "user.xdg.referrer.url"@,
        "user.xdg.comment"@ != "user.xdg.origin.email.subject"@,
        "user.xdg.comment"@ != "user.xdg.origin.email.from"@,
        "user.xdg.comment"@ != "user.xdg.origin.email.message-id"@,
        "user.xdg.creator"@ != "user.xdg.language"@,
        "user.xdg.creator"@ != "user.xdg.tags"@,
        "user.xdg.creator"@ != "user.xdg.origin.url"@,
        "user.xdg.creator"@ != "user.xdg.referrer.url"@,
        "user.xdg.creator"@ != "user.xdg.origin.email.subject"@,
        "user.xdg.creator"@ != "user.xdg.origin.email.from"@,
        "user.xdg.creator"@ != "user.xdg.origin.email.message-id"@,
        "user.xdg.language"@ != "user.xdg.tags"@,
        "user.xdg.language"@ != "user.xdg.origin.url"@,
        "user.xdg.language"@ != "user.xdg.referrer.url"@,
        "user.xdg.language"@ != "user.xdg.origin.email.subject"@,
        "user.xdg.language"@ != "user.xdg.origin.email.from"@,
        "user.xdg.language"@ != "user.xdg.origin.email.message-id"@,
        "user.xdg.tags"@ != "user.xdg.origin.url"@,
        "user.xdg.tags"@ != "user.xdg.referrer.url"@,
        "user.xdg.tags"@ != "user.xdg.origin.email.subject"@,
        "user.xdg.tags"@ != "user.xdg.origin.email.from"@,
        "user.xdg.tags"@ != "user.xdg.origin.email.message-id"@,
        "user.xdg.origin.url"@ != "user.xdg.referrer.url"@,
        "user.xdg.origin.url"@ != "user.xdg.origin.email.subject"@,
        "user.xdg.origin.url"@ != "user.xdg.origin.email.from"@,
        "user.xdg.origin.url"@ != "user.xdg.origin.email.message-id"@,
        "user.xdg.referrer.url"@ != "user.xdg.origin.email.subject"@,
        "user.xdg.referrer.url"@ != "user.xdg.origin.email.from"@,
        "user.xdg.referrer.url"@ != "user.xdg.origin.email.message-id"@,
        "user.xdg.origin.email.subject"@ != "user.xdg.origin.email.from"@,
        "user.xdg.origin.email.subject"@ != "user.xdg.origin.email.message-id"@,
        "user.xdg.origin.email.from"@ != "user.xdg.origin.email.message-id"@,
{
    reveal_strlit("user.xdg.comment");
    reveal_strlit("user.xdg.creator");
    reveal_strlit("user.xdg.language");
    reveal_strlit("user.xdg.tags");
    reveal_strlit("user.xdg.origin.url");
    reveal_strlit("user.xdg.referrer.url");
    reveal_strlit("user.xdg.origin.email.subject");
    reveal_strlit("user.xdg.origin.email.from");
    reveal_strlit("user.xdg.origin.email.message-id");
    assert("user.xdg.comment"@.len() == 16);
    assert("user.xdg.creator"@.len() == 16);
    assert("user.xdg.language"@.len() == 17);
    assert("user.xdg.tags"@.len() == 13);
    assert("user.xdg.origin.url"@.len() == 19);
    assert("user.xdg.referrer.url"@.len() == 21);
    assert("user.xdg.origin.email.subject"@.len() == 29);
    assert("user.xdg.origin.email.from"@.len() == 26);
    assert("user.xdg.origin.email.message-id"@.len() == 32);
    assert("user.xdg.comment"@[10] == 'o');
    assert("user.xdg.creator"@[10] == 'r');
}

/// Law: the write plan of a record holds a field's key exactly when the
/// field is present. So a write sets the key of every present field, and
/// never touches — in particular never clears — the key of an absent one:
/// omission is not deletion, and each field goes to its own fixed key.
#[verifier::rlimit(100)]
pub proof fn lemma_plan_keys(v: AttributesView)
    ensures
        plan_has_key(stored_entries_of(v), "user.xdg.comment"@) <==> v.comment is Some,
        plan_has_key(stored_entries_of(v), "user.xdg.creator"@) <==> v.creator is Some,
        plan_has_key(stored_entries_of(v), "user.xdg.language"@) <==> v.language is Some,
        plan_has_key(stored_entries_of(v), "user.xdg.tags"@) <==> v.tags is Some,
        plan_has_key(stored_entries_of(v), "user.xdg.origin.url"@) <==> v.origin_url is Some,
        plan_has_key(stored_entries_of(v), "user.xdg.referrer.url"@) <==> v.origin_referrer
            is Some,
        plan_has_key(stored_entries_of(v), "user.xdg.origin.email.subject"@)
            <==> v.origin_email_subject is Some,
        plan_has_key(stored_entries_of(v), "user.xdg.origin.email.from"@) <==> v.origin_email_from
            is Some,
        plan_has_key(stored_entries_of(v), "user.xdg.origin.email.message-id"@)
            <==> v.origin_email_message_id is Some,
{
    lemma_keys_distinct();
    let s = encode_record(v);
    let e1 = entry("user.xdg.comment"@, s.comment);
    let e2 = entry("user.xdg.creator"@, s.creator);
    let e3 = entry("user.xdg.language"@, s.language);
    let e4 = entry("user.xdg.tags"@, s.tags);
    let e5 = entry("user.xdg.origin.url"@, s.origin_url);
    let e6 = entry("user.xdg.referrer.url"@, s.origin_referrer);
    let e7 = entry("user.xdg.origin.email.subject"@, s.origin_email_subject);
    let e8 = entry("user.xdg.origin.email.from"@, s.origin_email_from);
    let e9 = entry("user.xdg.origin.email.message-id"@, s.origin_email_message_id);
    lemma_plan_has_key_concat(e1, e2);
    lemma_plan_has_key_concat(e1 + e2, e3);
    lemma_plan_has_key_concat(e1 + e2 + e3, e4);
    lemma_plan_has_key_concat(e1 + e2 + e3 + e4, e5);
    lemma_plan_has_key_concat(e1 + e2 + e3 + e4 + e5, e6);
    lemma_plan_has_key_concat(e1 + e2 + e3 + e4 + e5 + e6, e7);
    lemma_plan_has_key_concat(e1 + e2 + e3 + e4 + e5 + e6 + e7, e8);
    lemma_plan_has_key_concat(e1 + e2 + e3 + e4 + e5 + e6 + e7 + e8, e9);
    assert(stored_entries_of(v) == e1 + e2 + e3 + e4 + e5 + e6 + e7 + e8 + e9);
    if s.comment is Some {
        assert(e1[0].0 == "user.xdg.comment"@);
    }
    if s.creator is Some {
        assert(e2[0].0 == "user.xdg.creator"@);
    }
    if s.language is Some {
        assert(e3[0].0 == "user.xdg.language"@);
    }
    if s.tags is Some {
        assert(e4[0].0 == "user.xdg.tags"@);
    }
    if s.origin_url is Some {
        assert(e5[0].0 == "user.xdg.origin.url"@);
    }
    if s.origin_referrer is Some {
        assert(e6[0].0 == "user.xdg.referrer.url"@);
    }
    if s.origin_email_subject is Some {
        assert(e7[0].0 == "user.xdg.origin.email.subject"@);
    }
    if s.origin_email_from is Some {
        assert(e8[0].0 == "user.xdg.origin.email.from"@);
    }
    if s.origin_email_message_id is Some {
        assert(e9[0].0 == "user.xdg.origin.email.message-id"@);
    }
}

/// Law: a write followed by a read loses nothing, for a record with every
/// field present whose tag list is non-empty and comma-free. Stated over
/// the store model: the bytes that writing the record stores decode back
/// to the record itself.
///
/// The tag list must be non-empty because the encoding is lossy there: an
/// empty list joins to the empty string, which decodes to a list holding
/// one empty tag.
pub proof fn lemma_write_read_round_trip(v: AttributesView)
    requires
        v.comment is Some,
        v.creator is Some,
        v.language is Some,
        v.tags matches Some(ts) && ts.len() > 0 && (forall|p: int, j: int|
            0 <= p < ts.len() && 0 <= j < ts[p].len() ==> #[trigger] ts[p][j] != ','),
        v.origin_url is Some,
        v.origin_referrer is Some,
        v.origin_email_subject is Some,
        v.origin_email_from is Some,
        v.origin_email_message_id is Some,
    ensures
        decode_record(encode_record(v)) == v,
{
    broadcast use encode_utf8_valid_utf8;
    broadcast use encode_utf8_decode_utf8;

    match v.tags {
        Option::Some(ts) => {
            lemma_split_join(ts);
        },
        Option::None => {},
    }
    assert(decode_record(encode_record(v)) =~= v);
}

} // verus!
