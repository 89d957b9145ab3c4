//! Certificate bundles: the base64 text of a compressed archive in which a
//! public certificate and a private key are found by what they contain.

use crate::error::{AppError, ErrorView, Result};
use crate::text::option_text;
use base64::Engine;
use std::io::Read;
use vstd::prelude::*;
use vstd::string::*;
use vstd::utf8::encode_utf8;

verus! {

/// The error of the base64 crate's decoders, carried as it comes.
#[verifier::external_type_specification]
#[verifier::external_body]
pub struct ExDecodeError(base64::DecodeError);

/// The error of the zip crate, carried as it comes.
#[verifier::external_type_specification]
#[verifier::external_body]
pub struct ExZipError(zip::result::ZipError);

/// The reader of std over bytes in memory, which the archive reads from.
#[verifier::external_type_specification]
#[verifier::external_body]
#[verifier::reject_recursive_types(T)]
pub struct ExCursor<T>(std::io::Cursor<T>);

/// An open archive of the zip crate. What it holds is known by
/// [`archive_entries`] alone.
#[verifier::external_type_specification]
#[verifier::external_body]
#[verifier::reject_recursive_types(R)]
pub struct ExZipArchive<R>(zip::ZipArchive<R>);

/// The bytes that standard, padded base64 text stands for; `None` for text
/// that is not such base64.
pub uninterp spec fn base64_decoded(text: Seq<char>) -> Option<Seq<u8>>;

/// What a zip reader makes of `bytes`: `None` where they are no archive it
/// accepts, else one item for each entry that the reader lists, in the
/// order of its listing. Entries of the central directory that share a name
/// are listed once. The item is the entry's decompressed content, or `None`
/// for an entry that cannot be read out.
pub uninterp spec fn archive_of(bytes: Seq<u8>) -> Option<Seq<Option<Seq<u8>>>>;

/// The entries of an open archive, as [`archive_of`] lists them.
pub uninterp spec fn archive_entries(archive: zip::ZipArchive<std::io::Cursor<Vec<u8>>>) -> Seq<
    Option<Seq<u8>>,
>;

/// The text that lossy UTF-8 decoding makes of `bytes`: every ill-formed
/// part replaced by U+FFFD.
pub uninterp spec fn lossy_text(bytes: Seq<u8>) -> Seq<char>;

/// `Engine::decode` of the base64 crate, on its `STANDARD` engine. Trusted:
/// the outcome depends on the text alone, and [`base64_decoded`] is its name.
#[verifier::external_body]
fn decode_base64(content: &str) -> (decoded: std::result::Result<Vec<u8>, base64::DecodeError>)
    ensures
        match decoded {
            Ok(bytes) => base64_decoded(content@) == Some(bytes@),
            Err(_) => base64_decoded(content@) is None,
        },
{
    base64::engine::general_purpose::STANDARD.decode(content)
}

/// `ZipArchive::new` of the zip crate, over the bytes in memory. Trusted:
/// whether the bytes are accepted and which entries the archive then lists
/// depend on the bytes alone, and [`archive_of`] is the name of both.
#[verifier::external_body]
fn open_archive(bytes: Vec<u8>) -> (opened: std::result::Result<
    zip::ZipArchive<std::io::Cursor<Vec<u8>>>,
    zip::result::ZipError,
>)
    ensures
        match opened {
            Ok(archive) => archive_of(bytes@) == Some(archive_entries(archive)),
            Err(_) => archive_of(bytes@) is None,
        },
{
    zip::ZipArchive::new(std::io::Cursor::new(bytes))
}

/// `ZipArchive::len` of the zip crate. Trusted: it is the number of entries.
#[verifier::external_body]
fn archive_len(archive: &zip::ZipArchive<std::io::Cursor<Vec<u8>>>) -> (count: usize)
    ensures
        count == archive_entries(*archive).len(),
{
    archive.len()
}

/// `ZipArchive::by_index` of the zip crate, and the whole content of the
/// entry it hands out. Trusted: the archive lists the same entries afterwards;
/// an entry within the archive comes out as its content exactly when it can
/// be read out; an index beyond the last entry is an error.
#[verifier::external_body]
fn read_entry(archive: &mut zip::ZipArchive<std::io::Cursor<Vec<u8>>>, index: usize) -> (entry:
    std::result::Result<Vec<u8>, zip::result::ZipError>)
    ensures
        archive_entries(*final(archive)) == archive_entries(*old(archive)),
        index < archive_entries(*old(archive)).len() ==> match entry {
            Ok(content) => archive_entries(*old(archive))[index as int] == Some(content@),
            Err(_) => archive_entries(*old(archive))[index as int] is None,
        },
        index >= archive_entries(*old(archive)).len() ==> entry is Err,
{
    let mut file = archive.by_index(index)?;
    let mut content = Vec::new();
    file.read_to_end(&mut content)?;
    Ok(content)
}

/// `String::from_utf8_lossy` of std. Trusted: the text depends on the bytes
/// alone, and [`lossy_text`] is its name.
#[verifier::external_body]
fn utf8_lossy(bytes: &Vec<u8>) -> (text: String)
    ensures
        text@ == lossy_text(bytes@),
{
    String::from_utf8_lossy(bytes).into_owned()
}

/// An entry that carries this text holds the public certificate.
pub const PUBLIC_KEY_MARKER: &'static str = "--BEGIN CERTIFICATE--";

/// An entry that carries this text holds the private key.
pub const PRIVATE_KEY_MARKER: &'static str = "-BEGIN RSA PRIVATE KEY--";

/// The message of the error for a bundle that lacks one of the two keys.
pub const MISSING_KEYS: &'static str = "file is not valid";

/// The public certificate and the private key taken from a bundle.
#[derive(Debug, PartialEq, Eq)]
pub struct CertFile {
    pub public_key: String,
    pub private_key: String,
}

/// The mathematical value of a [`CertFile`].
pub struct CertFileView {
    pub public_key: Seq<char>,
    pub private_key: Seq<char>,
}

impl View for CertFile {
    type V = CertFileView;

    open spec fn view(&self) -> CertFileView {
        CertFileView { public_key: self.public_key@, private_key: self.private_key@ }
    }
}

impl Clone for CertFile {
    fn clone(&self) -> (copy: CertFile)
        ensures
            copy@ == self@,
    {
        CertFile { public_key: self.public_key.clone(), private_key: self.private_key.clone() }
    }
}

/// `needle` stands in `hay` from position `at` on.
pub open spec fn occurs_at(hay: Seq<u8>, needle: Seq<u8>, at: int) -> bool {
    0 <= at && at + needle.len() <= hay.len() && hay.subrange(at, at + needle.len()) == needle
}

/// `needle` stands somewhere in `hay`.
pub open spec fn occurs(hay: Seq<u8>, needle: Seq<u8>) -> bool {
    exists|at: int| occurs_at(hay, needle, at)
}

/// `text` carries `marker`: the marker's UTF-8 bytes stand somewhere in the
/// text's.
pub open spec fn carries(text: Seq<char>, marker: Seq<char>) -> bool {
    occurs(encode_utf8(text), encode_utf8(marker))
}

/// The first of `texts` that carries `marker`, if any does.
pub open spec fn first_carrier(texts: Seq<Seq<char>>, marker: Seq<char>) -> Option<Seq<char>>
    decreases texts.len(),
{
    if texts.len() == 0 {
        None
    } else {
        match first_carrier(texts.drop_last(), marker) {
            Some(text) => Some(text),
            None => if carries(texts.last(), marker) {
                Some(texts.last())
            } else {
                None
            },
        }
    }
}

/// The keys found in `texts`: the first text that carries the public marker
/// and the first that carries the private one. `None` unless both exist.
pub open spec fn selection(texts: Seq<Seq<char>>) -> Option<CertFileView> {
    match (
        first_carrier(texts, PUBLIC_KEY_MARKER@),
        first_carrier(texts, PRIVATE_KEY_MARKER@),
    ) {
        (Some(public_key), Some(private_key)) => Some(CertFileView { public_key, private_key }),
        _ => None,
    }
}

/// Whether `needle` stands in `hay` at `at`.
fn matches_at(hay: &[u8], needle: &[u8], at: usize) -> (same: bool)
    requires
        at + needle@.len() <= hay@.len(),
    ensures
        same == occurs_at(hay@, needle@, at as int),
{
    let n = hay.len();
    let m = needle.len();
    let mut k: usize = 0;
    while k < m
        invariant
            n == hay@.len(),
            m == needle@.len(),
            at + m <= n,
            k <= m,
            forall|j: int| 0 <= j < k ==> hay@[at + j] == needle@[j],
        decreases m - k,
    {
        if hay[at + k] != needle[k] {
            assert(hay@.subrange(at as int, at + m)[k as int] == hay@[at + k]);
            return false;
        }
        k += 1;
    }
    assert(hay@.subrange(at as int, at + m) =~= needle@);
    true
}

/// Whether `needle` stands somewhere in `hay`.
pub fn contains_bytes(hay: &[u8], needle: &[u8]) -> (found: bool)
    ensures
        found == occurs(hay@, needle@),
{
    let n = hay.len();
    let m = needle.len();
    if m > n {
        return false;
    }
    let last = n - m;
    let mut start: usize = 0;
    while start < last
        invariant
            n == hay@.len(),
            m == needle@.len(),
            last == n - m,
            start <= last,
            forall|at: int| 0 <= at < start ==> !occurs_at(hay@, needle@, at),
        decreases last - start,
    {
        if matches_at(hay, needle, start) {
            return true;
        }
        start += 1;
    }
    matches_at(hay, needle, last)
}

/// Whether `text` carries `marker`.
pub fn carries_marker(text: &str, marker: &str) -> (found: bool)
    ensures
        found == carries(text@, marker@),
{
    contains_bytes(text.as_bytes(), marker.as_bytes())
}

/// No text yet, then the first offered text that carries `marker`.
fn keep_first(found: Option<String>, text: &String, marker: &str) -> (kept: Option<String>)
    ensures
        kept is Some <==> found is Some || carries(text@, marker@),
        found is Some ==> kept->0@ == found->0@,
        found is None && kept is Some ==> kept->0@ == text@,
{
    match found {
        Some(first) => Some(first),
        None => if carries_marker(text.as_str(), marker) {
            Some(text.clone())
        } else {
            None
        },
    }
}

/// Both keys or the error for a bundle that lacks one.
fn both_keys(public_key: Option<String>, private_key: Option<String>) -> (keys: Result<CertFile>)
    ensures
        match keys {
            Ok(cert) => option_text(public_key) == Some(cert@.public_key) && option_text(private_key)
                == Some(cert@.private_key),
            Err(e) => (public_key is None || private_key is None) && e@ == ErrorView::ParseError(
                MISSING_KEYS@,
            ),
        },
{
    match (public_key, private_key) {
        (Some(public_key), Some(private_key)) => Ok(CertFile { public_key, private_key }),
        _ => Err(AppError::ParseError(String::from_str(MISSING_KEYS))),
    }
}

/// Picks the two keys out of the texts of a bundle's entries: for each
/// marker the first text that carries it. Fails with a parse error unless
/// both are found.
pub fn select_keys(texts: &Vec<String>) -> (keys: Result<CertFile>)
    ensures
        match keys {
            Ok(cert) => selection(texts.deep_view()) == Some(cert@),
            Err(e) => selection(texts.deep_view()) is None && e@ == ErrorView::ParseError(
                MISSING_KEYS@,
            ),
        },
{
    let ghost all = texts.deep_view();
    let mut public_key: Option<String> = None;
    let mut private_key: Option<String> = None;
    let mut i: usize = 0;
    while i < texts.len()
        invariant
            i <= texts.len(),
            all == texts.deep_view(),
            option_text(public_key) == first_carrier(all.take(i as int), PUBLIC_KEY_MARKER@),
            option_text(private_key) == first_carrier(all.take(i as int), PRIVATE_KEY_MARKER@),
        decreases texts.len() - i,
    {
        proof {
            assert(all.take(i + 1).drop_last() =~= all.take(i as int));
            assert(all.take(i + 1).last() == texts[i as int]@);
        }
        public_key = keep_first(public_key, &texts[i], PUBLIC_KEY_MARKER);
        private_key = keep_first(private_key, &texts[i], PRIVATE_KEY_MARKER);
        i += 1;
    }
    proof {
        assert(all.take(i as int) =~= all);
    }
    both_keys(public_key, private_key)
}

/// How many entries, from the first on, can be read out one after another.
pub open spec fn leading_readable(entries: Seq<Option<Seq<u8>>>) -> nat
    decreases entries.len(),
{
    if entries.len() == 0 || entries[0] is None {
        0
    } else {
        1 + leading_readable(entries.drop_first())
    }
}

/// The texts of the first `count` entries.
pub open spec fn entry_texts(entries: Seq<Option<Seq<u8>>>, count: nat) -> Seq<Seq<char>> {
    Seq::new(count, |i: int| lossy_text(entries[i]->0))
}

/// The archive that `content` holds, where it is base64 of one.
pub open spec fn bundle_entries(content: Seq<char>) -> Option<Seq<Option<Seq<u8>>>> {
    match base64_decoded(content) {
        Some(bytes) => archive_of(bytes),
        None => None,
    }
}

/// The keys that a bundle yields: those selected from the texts of its
/// entries, as far as the entries can be read out one after another. `None`
/// where the content is no base64, the bytes no archive, or a key is not
/// found before an entry fails.
pub open spec fn bundle_keys(content: Seq<char>) -> Option<CertFileView> {
    match bundle_entries(content) {
        Some(entries) => selection(entry_texts(entries, leading_readable(entries))),
        None => None,
    }
}

/// The content is base64 of an archive whose every entry can be read out.
pub open spec fn bundle_is_readable(content: Seq<char>) -> bool {
    match bundle_entries(content) {
        Some(entries) => leading_readable(entries) == entries.len(),
        None => false,
    }
}

/// What is found among the first texts stays found among all of them.
pub proof fn lemma_first_carrier_stable(texts: Seq<Seq<char>>, marker: Seq<char>, count: int)
    requires
        0 <= count <= texts.len(),
        first_carrier(texts.take(count), marker) is Some,
    ensures
        first_carrier(texts, marker) == first_carrier(texts.take(count), marker),
    decreases texts.len() - count,
{
    if count < texts.len() {
        assert(texts.take(count + 1).drop_last() =~= texts.take(count));
        lemma_first_carrier_stable(texts, marker, count + 1);
    } else {
        assert(texts.take(count) =~= texts);
    }
}

/// Entries that are readable up to `count` make `count` a lower bound of
/// [`leading_readable`], and the exact value where the next entry fails or
/// there is none.
pub proof fn lemma_leading_readable(entries: Seq<Option<Seq<u8>>>, count: int)
    requires
        0 <= count <= entries.len(),
        forall|j: int| 0 <= j < count ==> entries[j] is Some,
    ensures
        leading_readable(entries) >= count,
        count == entries.len() || entries[count] is None ==> leading_readable(entries) == count,
    decreases count,
{
    if count > 0 {
        let rest = entries.drop_first();
        assert forall|j: int| 0 <= j < count - 1 implies rest[j] is Some by {
            assert(rest[j] == entries[j + 1]);
        }
        if count < entries.len() {
            assert(rest[count - 1] == entries[count]);
        }
        lemma_leading_readable(rest, count - 1);
    }
}

/// The first carrier is a text that carries the marker and has none before
/// it that does; there is no first carrier only where no text carries the
/// marker.
pub proof fn law_first_carrier_is_first(texts: Seq<Seq<char>>, marker: Seq<char>)
    ensures
        match first_carrier(texts, marker) {
            Some(text) => exists|at: int|
                {
                    &&& 0 <= at < texts.len()
                    &&& #[trigger] texts[at] == text
                    &&& carries(texts[at], marker)
                    &&& forall|before: int|
                        0 <= before < at ==> !carries(#[trigger] texts[before], marker)
                },
            None => forall|at: int| 0 <= at < texts.len() ==> !carries(#[trigger] texts[at], marker),
        },
    decreases texts.len(),
{
    if texts.len() > 0 {
        let shorter = texts.drop_last();
        law_first_carrier_is_first(shorter, marker);
        match first_carrier(shorter, marker) {
            Some(text) => {
                let at = choose|at: int|
                    {
                        &&& 0 <= at < shorter.len()
                        &&& #[trigger] shorter[at] == text
                        &&& carries(shorter[at], marker)
                        &&& forall|before: int|
                            0 <= before < at ==> !carries(#[trigger] shorter[before], marker)
                    };
                assert(texts[at] == text);
                assert forall|before: int| 0 <= before < at implies !carries(
                    #[trigger] texts[before],
                    marker,
                ) by {
                    assert(texts[before] == shorter[before]);
                }
            },
            None => {
                let at = texts.len() - 1;
                assert forall|before: int| 0 <= before < at implies !carries(
                    #[trigger] texts[before],
                    marker,
                ) by {
                    assert(texts[before] == shorter[before]);
                }
                if carries(texts.last(), marker) {
                    assert(texts[at] == texts.last());
                }
            },
        }
    }
}

/// Bundle parsing, one way: where one text carries the public marker and one
/// the private marker, wherever the two stand and in whatever order, both
/// keys are selected, and each is a text that carries its marker.
pub proof fn law_keys_are_found_wherever_they_stand(
    texts: Seq<Seq<char>>,
    public_at: int,
    private_at: int,
)
    requires
        0 <= public_at < texts.len(),
        0 <= private_at < texts.len(),
        carries(texts[public_at], PUBLIC_KEY_MARKER@),
        carries(texts[private_at], PRIVATE_KEY_MARKER@),
    ensures
        selection(texts) matches Some(keys) && carries(keys.public_key, PUBLIC_KEY_MARKER@)
            && carries(keys.private_key, PRIVATE_KEY_MARKER@),
{
    law_first_carrier_is_first(texts, PUBLIC_KEY_MARKER@);
    law_first_carrier_is_first(texts, PRIVATE_KEY_MARKER@);
}

/// Bundle parsing, the other way: where no text carries the public marker,
/// or none the private one, nothing is selected.
pub proof fn law_missing_key_selects_nothing(texts: Seq<Seq<char>>)
    requires
        (forall|at: int| 0 <= at < texts.len() ==> !carries(#[trigger] texts[at], PUBLIC_KEY_MARKER@))
            || (forall|at: int|
            0 <= at < texts.len() ==> !carries(#[trigger] texts[at], PRIVATE_KEY_MARKER@)),
    ensures
        selection(texts) is None,
{
    law_first_carrier_is_first(texts, PUBLIC_KEY_MARKER@);
    law_first_carrier_is_first(texts, PRIVATE_KEY_MARKER@);
}

/// The texts of the entries of an archive whose every entry can be read
/// out.
pub proof fn lemma_readable_archive_texts(entries: Seq<Option<Seq<u8>>>)
    requires
        forall|at: int| 0 <= at < entries.len() ==> (#[trigger] entries[at]) is Some,
    ensures
        leading_readable(entries) == entries.len(),
        entry_texts(entries, leading_readable(entries)).len() == entries.len(),
        forall|at: int|
            0 <= at < entries.len() ==> (#[trigger] entry_texts(
                entries,
                leading_readable(entries),
            )[at]) == lossy_text(entries[at]->0),
{
    lemma_leading_readable(entries, entries.len() as int);
}

/// Bundle parsing round trip: a bundle whose archive can be read out yields
/// both keys where one entry carries the public marker and one the private
/// marker, wherever the two stand; it yields none where either marker is in
/// no entry.
pub proof fn law_bundle_round_trip(content: Seq<char>, entries: Seq<Option<Seq<u8>>>)
    requires
        bundle_entries(content) == Some(entries),
        forall|at: int| 0 <= at < entries.len() ==> (#[trigger] entries[at]) is Some,
    ensures
        bundle_is_readable(content),
        bundle_keys(content) is Some <==> (exists|at: int|
            0 <= at < entries.len() && carries(
                lossy_text((#[trigger] entries[at])->0),
                PUBLIC_KEY_MARKER@,
            )) && (exists|at: int|
            0 <= at < entries.len() && carries(
                lossy_text((#[trigger] entries[at])->0),
                PRIVATE_KEY_MARKER@,
            )),
{
    lemma_readable_archive_texts(entries);
    let texts = entry_texts(entries, leading_readable(entries));
    law_first_carrier_is_first(texts, PUBLIC_KEY_MARKER@);
    law_first_carrier_is_first(texts, PRIVATE_KEY_MARKER@);
    if bundle_keys(content) is Some {
        let public_at = choose|at: int|
            0 <= at < texts.len() && #[trigger] texts[at] == first_carrier(
                texts,
                PUBLIC_KEY_MARKER@,
            )->0 && carries(texts[at], PUBLIC_KEY_MARKER@);
        assert(carries(lossy_text(entries[public_at]->0), PUBLIC_KEY_MARKER@));
        let private_at = choose|at: int|
            0 <= at < texts.len() && #[trigger] texts[at] == first_carrier(
                texts,
                PRIVATE_KEY_MARKER@,
            )->0 && carries(texts[at], PRIVATE_KEY_MARKER@);
        assert(carries(lossy_text(entries[private_at]->0), PRIVATE_KEY_MARKER@));
    }
    if (exists|at: int|
        0 <= at < entries.len() && carries(
            lossy_text((#[trigger] entries[at])->0),
            PUBLIC_KEY_MARKER@,
        )) && (exists|at: int|
        0 <= at < entries.len() && carries(
            lossy_text((#[trigger] entries[at])->0),
            PRIVATE_KEY_MARKER@,
        )) {
        let public_at = choose|at: int|
            0 <= at < entries.len() && carries(
                lossy_text((#[trigger] entries[at])->0),
                PUBLIC_KEY_MARKER@,
            );
        let private_at = choose|at: int|
            0 <= at < entries.len() && carries(
                lossy_text((#[trigger] entries[at])->0),
                PRIVATE_KEY_MARKER@,
            );
        assert(carries(texts[public_at], PUBLIC_KEY_MARKER@));
        assert(carries(texts[private_at], PRIVATE_KEY_MARKER@));
        law_keys_are_found_wherever_they_stand(texts, public_at, private_at);
    }
}

/// Takes the public certificate and the private key out of a bundle: base64
/// text of a zip archive. The entries are read in order and told apart by
/// what they contain, whatever they are called; reading stops once both keys
/// are found.
pub fn parse_cert_from_base64(content: &str) -> (keys: Result<CertFile>)
    ensures
        match keys {
            Ok(cert) => bundle_keys(content@) == Some(cert@),
            Err(e) => {
                &&& bundle_keys(content@) is None
                &&& e@ is ParseError
                &&& bundle_is_readable(content@) ==> e@ == ErrorView::ParseError(MISSING_KEYS@)
            },
        },
{
    let bytes = match decode_base64(content) {
        Ok(bytes) => bytes,
        Err(e) => {
            return Err(AppError::ParseError(e.to_string()));
        },
    };
    let mut archive = match open_archive(bytes) {
        Ok(archive) => archive,
        Err(e) => {
            return Err(AppError::ParseError(e.to_string()));
        },
    };
    let ghost entries = archive_entries(archive);
    let count = archive_len(&archive);
    let mut public_key: Option<String> = None;
    let mut private_key: Option<String> = None;
    let mut i: usize = 0;
    while i < count && !(public_key.is_some() && private_key.is_some())
        invariant
            i <= count == entries.len(),
            archive_entries(archive) == entries,
            bundle_entries(content@) == Some(entries),
            forall|j: int| 0 <= j < i ==> entries[j] is Some,
            option_text(public_key) == first_carrier(
                entry_texts(entries, i as nat),
                PUBLIC_KEY_MARKER@,
            ),
            option_text(private_key) == first_carrier(
                entry_texts(entries, i as nat),
                PRIVATE_KEY_MARKER@,
            ),
        decreases count - i,
    {
        let text = match read_entry(&mut archive, i) {
            Ok(data) => utf8_lossy(&data),
            Err(e) => {
                proof {
                    lemma_leading_readable(entries, i as int);
                }
                return Err(AppError::ParseError(e.to_string()));
            },
        };
        proof {
            let longer = entry_texts(entries, (i + 1) as nat);
            assert(longer.drop_last() =~= entry_texts(entries, i as nat));
            assert(longer.last() == text@);
        }
        public_key = keep_first(public_key, &text, PUBLIC_KEY_MARKER);
        private_key = keep_first(private_key, &text, PRIVATE_KEY_MARKER);
        i += 1;
    }
    proof {
        lemma_leading_readable(entries, i as int);
        let all = entry_texts(entries, leading_readable(entries));
        assert(all.take(i as int) =~= entry_texts(entries, i as nat));
        if public_key is Some && private_key is Some {
            lemma_first_carrier_stable(all, PUBLIC_KEY_MARKER@, i as int);
            lemma_first_carrier_stable(all, PRIVATE_KEY_MARKER@, i as int);
        } else {
            assert(all =~= entry_texts(entries, i as nat));
        }
    }
    both_keys(public_key, private_key)
}

} // verus!
