//! Searching build logs: the index, what is written to it, and the statements that search it.

use vstd::prelude::*;
use vstd::utf8::{encode_utf8_decode_utf8, is_ascii_chars_encode_utf8};

use crate::domain::{is_identity, is_timestamp, is_version};
use crate::hash::{sha256, sha256_of};
use crate::log_chunk::{
    parse_stream_name, stream_name, stream_name_text, stream_name_text_names_one_value, BuildLogStream,
};
use crate::text::{append_bytes, same_bytes, same_text, utf8};

verus! {

/// Appends a character to a text, as `String::push` documents it.
pub assume_specification[ String::push ](text: &mut String, character: char)
    ensures
        final(text)@ == old(text)@.push(character),
;

/// Something that is done with the index.
#[derive(Clone, Copy, Debug, PartialEq, Eq, Structural)]
pub enum LogSearchOperation {
    /// Searching.
    Search,
    /// Indexing a chunk.
    Index,
    /// Forgetting a build.
    Delete,
    /// Indexing a chunk again.
    Rebuild,
}

/// What is wrong with a query or a document, by the number of the rule that it breaks.
#[derive(Clone, Copy, Debug, PartialEq, Eq, Structural)]
pub struct LogSearchInputError {
    /// The rule.
    pub rule: u32,
}

/// Failure of a search or of a write to the index.
#[derive(Clone, Copy, Debug, PartialEq, Eq, Structural)]
pub enum LogSearchError {
    /// The query or the document is malformed.
    InvalidInput { operation: LogSearchOperation, source: LogSearchInputError },
    /// The index cannot answer, or holds something this library cannot read.
    Unavailable,
    /// The same work was applied with another request.
    WorkConflict { work_id: u128 },
    /// The same chunk was indexed with another content.
    DocumentConflict { chunk_id: u128 },
}

/// Whether a character has a meaning of its own in a `LIKE` pattern.
pub open spec fn is_special(character: char) -> bool {
    character == '\\' || character == '%' || character == '_'
}

/// A character as it is written in a pattern that means it literally.
pub open spec fn escaped_character(character: char) -> Seq<char> {
    if is_special(character) {
        seq!['\\', character]
    } else {
        seq![character]
    }
}

/// A text as it is written in a pattern that means it literally.
pub open spec fn escaped(text: Seq<char>) -> Seq<char>
    decreases text.len(),
{
    if text.len() == 0 {
        Seq::empty()
    } else {
        escaped_character(text[0]) + escaped(text.drop_first())
    }
}

proof fn escaping_extends(text: Seq<char>, character: char)
    ensures
        escaped(text.push(character)) == escaped(text) + escaped_character(character),
    decreases text.len(),
{
    let longer = text.push(character);
    if text.len() == 0 {
        assert(longer.drop_first() =~= Seq::empty());
        assert(escaped(longer.drop_first()) =~= Seq::empty());
        assert(escaped(longer) =~= escaped_character(character));
        assert(escaped(text) + escaped_character(character) =~= escaped_character(character));
    } else {
        assert(longer.drop_first() =~= text.drop_first().push(character));
        escaping_extends(text.drop_first(), character);
        assert(escaped(longer) =~= escaped(text) + escaped_character(character));
    }
}

/// The pattern that finds a text anywhere.
pub open spec fn pattern_of(text: Seq<char>) -> Seq<char> {
    seq!['%'] + escaped(text) + seq!['%']
}

/// Builds the `LIKE` pattern that finds a text anywhere, with `\` as the escape character.
pub fn literal_pattern(value: &str) -> (pattern: String)
    ensures
        pattern@ == pattern_of(value@),
{
    let mut pattern: String = String::new();
    pattern.push('%');
    let length: usize = value.unicode_len();
    let mut i: usize = 0;
    assert(value@.subrange(0, 0) =~= Seq::empty());
    assert(pattern@ =~= seq!['%'] + escaped(value@.subrange(0, 0)));
    while i < length
        invariant
            length == value@.len(),
            i <= length,
            pattern@ == seq!['%'] + escaped(value@.subrange(0, i as int)),
        decreases length - i,
    {
        let character: char = value.get_char(i);
        let ghost before = pattern@;
        if character == '\\' || character == '%' || character == '_' {
            pattern.push('\\');
        }
        pattern.push(character);
        proof {
            assert(value@.subrange(0, i + 1) =~= value@.subrange(0, i as int).push(character));
            escaping_extends(value@.subrange(0, i as int), character);
            assert(pattern@ =~= before + escaped_character(character));
            assert(pattern@ =~= seq!['%'] + escaped(value@.subrange(0, i + 1)));
        }
        i += 1;
    }
    assert(value@.subrange(0, i as int) =~= value@);
    pattern.push('%');
    assert(pattern@ =~= pattern_of(value@));
    pattern
}

/// Whether a text matches a `LIKE` pattern with `\` as the escape character: `%` stands for any text,
/// `_` for any character, and an escaped or other character for itself.
pub open spec fn like(pattern: Seq<char>, text: Seq<char>) -> bool
    decreases pattern.len(),
{
    if pattern.len() == 0 {
        text.len() == 0
    } else if pattern[0] == '%' {
        exists|skip: int|
            0 <= skip <= text.len() && like(
                pattern.drop_first(),
                #[trigger] text.subrange(skip, text.len() as int),
            )
    } else if text.len() == 0 {
        false
    } else if pattern[0] == '_' {
        like(pattern.drop_first(), text.drop_first())
    } else if pattern[0] == '\\' && pattern.len() > 1 {
        pattern[1] == text[0] && like(pattern.subrange(2, pattern.len() as int), text.drop_first())
    } else {
        pattern[0] == text[0] && like(pattern.drop_first(), text.drop_first())
    }
}

/// Whether a text starts with another.
pub open spec fn starts_with(text: Seq<char>, prefix: Seq<char>) -> bool {
    prefix.len() <= text.len() && text.subrange(0, prefix.len() as int) == prefix
}

/// Whether a text holds another at some place.
pub open spec fn holds_text(text: Seq<char>, part: Seq<char>) -> bool {
    exists|at: int| 0 <= at <= text.len() && starts_with(#[trigger] text.subrange(at, text.len() as int), part)
}

proof fn anything_matches(text: Seq<char>)
    ensures
        like(seq!['%'], text),
{
    let rest = text.subrange(text.len() as int, text.len() as int);
    assert(seq!['%'].drop_first() =~= Seq::empty());
    assert(rest.len() == 0);
    reveal_with_fuel(like, 2);
    assert(like(Seq::<char>::empty(), rest));
    assert(like(seq!['%'].drop_first(), text.subrange(text.len() as int, text.len() as int)));
}

proof fn escaped_prefix_matches(value: Seq<char>, text: Seq<char>)
    ensures
        like(escaped(value) + seq!['%'], text) == starts_with(text, value),
    decreases value.len(),
{
    let pattern = escaped(value) + seq!['%'];
    if value.len() == 0 {
        assert(pattern =~= seq!['%']);
        anything_matches(text);
        assert(text.subrange(0, 0) =~= value);
    } else {
        let first = value[0];
        let rest = value.drop_first();
        let tail = escaped(rest) + seq!['%'];
        if text.len() == 0 {
            assert(pattern[0] != '%');
        } else {
            escaped_prefix_matches(rest, text.drop_first());
            if is_special(first) {
                assert(pattern[0] == '\\');
                assert(pattern[1] == first);
                assert(pattern.subrange(2, pattern.len() as int) =~= tail);
            } else {
                assert(pattern[0] == first);
                assert(pattern.drop_first() =~= tail);
            }
            if starts_with(text, value) {
                assert(text[0] == text.subrange(0, value.len() as int)[0]);
                assert(text.drop_first().subrange(0, rest.len() as int) =~= text.subrange(
                    0,
                    value.len() as int,
                ).drop_first());
            }
            if text[0] == first && starts_with(text.drop_first(), rest) {
                assert(text.subrange(0, value.len() as int) =~= seq![first] + text.drop_first().subrange(
                    0,
                    rest.len() as int,
                ));
                assert(value =~= seq![first] + rest);
            }
        }
    }
}

/// A literal search finds exactly the texts that hold the searched one, whatever wildcards it contains.
pub proof fn literal_patterns_find_literally(value: Seq<char>, text: Seq<char>)
    ensures
        like(pattern_of(value), text) <==> holds_text(text, value),
{
    let pattern = pattern_of(value);
    let tail = escaped(value) + seq!['%'];
    assert(pattern[0] == '%');
    assert(pattern.drop_first() =~= tail);
    assert forall|skip: int| 0 <= skip <= text.len() implies like(
        tail,
        #[trigger] text.subrange(skip, text.len() as int),
    ) == starts_with(text.subrange(skip, text.len() as int), value) by {
        escaped_prefix_matches(value, text.subrange(skip, text.len() as int));
    }
}

/// A number as bytes, most significant first.
pub open spec fn big_endian_bytes(value: nat, length: nat) -> Seq<u8>
    decreases length,
{
    if length == 0 {
        Seq::empty()
    } else {
        big_endian_bytes(value / 256, (length - 1) as nat).push((value % 256) as u8)
    }
}

fn append_number(target: &mut Vec<u8>, value: u128, length: usize)
    ensures
        final(target)@ == old(target)@ + big_endian_bytes(value as nat, length as nat),
    decreases length,
{
    if length > 0 {
        append_number(target, value / 256, length - 1);
        target.push((value % 256) as u8);
    }
    assert(target@ =~= old(target)@ + big_endian_bytes(value as nat, length as nat));
}

proof fn big_endian_bytes_have_their_length(value: nat, length: nat)
    ensures
        big_endian_bytes(value, length).len() == length,
    decreases length,
{
    if length > 0 {
        big_endian_bytes_have_their_length(value / 256, (length - 1) as nat);
    }
}

/// The bound below which a number fits some bytes.
pub open spec fn byte_bound(length: nat) -> nat
    decreases length,
{
    if length == 0 {
        1
    } else {
        256 * byte_bound((length - 1) as nat)
    }
}

proof fn big_endian_bytes_name_one_number(a: nat, b: nat, length: nat)
    requires
        a < byte_bound(length),
        b < byte_bound(length),
        big_endian_bytes(a, length) == big_endian_bytes(b, length),
    ensures
        a == b,
    decreases length,
{
    if length > 0 {
        let shorter = (length - 1) as nat;
        let x = big_endian_bytes(a, length);
        let y = big_endian_bytes(b, length);
        assert(x.drop_last() =~= big_endian_bytes(a / 256, shorter));
        assert(y.drop_last() =~= big_endian_bytes(b / 256, shorter));
        assert(x.last() == y.last());
        assert((a % 256) as u8 == (b % 256) as u8);
        assert(a % 256 == b % 256);
        big_endian_bytes_name_one_number(a / 256, b / 256, shorter);
    }
}

/// A piece of a log as it is indexed.
pub struct LogSearchDocument {
    /// The chunk it comes from.
    pub chunk_id: u128,
    /// Its project.
    pub project_id: u128,
    /// Its build.
    pub build_id: u128,
    /// Its attempt.
    pub attempt_id: u128,
    /// Its job.
    pub job_id: u128,
    /// Its stream.
    pub stream: BuildLogStream,
    /// First position of the job's log in it.
    pub first_sequence: u64,
    /// Last position of the job's log in it.
    pub last_sequence: u64,
    /// When it was recorded.
    pub occurred_at: i64,
    /// Its text, without secrets.
    pub redacted_text: String,
}

/// Whether two documents are the same.
pub open spec fn same_document_as(a: LogSearchDocument, b: LogSearchDocument) -> bool {
    &&& a.chunk_id == b.chunk_id
    &&& a.project_id == b.project_id
    &&& a.build_id == b.build_id
    &&& a.attempt_id == b.attempt_id
    &&& a.job_id == b.job_id
    &&& a.stream == b.stream
    &&& a.first_sequence == b.first_sequence
    &&& a.last_sequence == b.last_sequence
    &&& a.occurred_at == b.occurred_at
    &&& a.redacted_text@ == b.redacted_text@
}

/// Whether two documents are the same.
pub fn same_document(a: &LogSearchDocument, b: &LogSearchDocument) -> (same: bool)
    ensures
        same == same_document_as(*a, *b),
{
    a.chunk_id == b.chunk_id && a.project_id == b.project_id && a.build_id == b.build_id && a.attempt_id
        == b.attempt_id && a.job_id == b.job_id && a.stream == b.stream && a.first_sequence == b.first_sequence
        && a.last_sequence == b.last_sequence && a.occurred_at == b.occurred_at && same_text(
        a.redacted_text.as_str(),
        b.redacted_text.as_str(),
    )
}

/// The part of a document's hashed bytes whose length does not vary.
pub open spec fn document_head(document: LogSearchDocument, position: u64) -> Seq<u8> {
    utf8("octacity.log-search-document.v1\0"@) + big_endian_bytes(position as nat, 8) + big_endian_bytes(
        document.chunk_id as nat,
        16,
    ) + big_endian_bytes(document.project_id as nat, 16) + big_endian_bytes(document.build_id as nat, 16)
        + big_endian_bytes(document.attempt_id as nat, 16) + big_endian_bytes(document.job_id as nat, 16) + utf8(
        stream_name_text(document.stream),
    ) + big_endian_bytes(document.first_sequence as nat, 8) + big_endian_bytes(document.last_sequence as nat, 8)
        + big_endian_bytes(document.occurred_at as u64 as nat, 8)
}

/// The bytes that are hashed for a document at a position.
pub open spec fn document_frame(document: LogSearchDocument, position: u64) -> Seq<u8> {
    document_head(document, position) + big_endian_bytes(utf8(document.redacted_text@).len(), 8) + utf8(
        document.redacted_text@,
    )
}

/// The digest by which a document at a position is recognised.
pub fn document_digest(document: &LogSearchDocument, position: u64) -> (digest: [u8; 32])
    ensures
        digest@ == sha256_of(document_frame(*document, position)),
{
    let frame = document_bytes(document, position);
    sha256(frame.as_slice())
}

/// The bytes that are hashed for a document at a position.
pub fn document_bytes(document: &LogSearchDocument, position: u64) -> (frame: Vec<u8>)
    ensures
        frame@ == document_frame(*document, position),
{
    let mut frame: Vec<u8> = Vec::new();
    append_bytes(&mut frame, "octacity.log-search-document.v1\0".as_bytes());
    append_number(&mut frame, position as u128, 8);
    append_number(&mut frame, document.chunk_id, 16);
    append_number(&mut frame, document.project_id, 16);
    append_number(&mut frame, document.build_id, 16);
    append_number(&mut frame, document.attempt_id, 16);
    append_number(&mut frame, document.job_id, 16);
    append_bytes(&mut frame, stream_name(document.stream).as_bytes());
    append_number(&mut frame, document.first_sequence as u128, 8);
    append_number(&mut frame, document.last_sequence as u128, 8);
    append_number(&mut frame, document.occurred_at as u64 as u128, 8);
    assert(frame@ =~= document_head(*document, position));
    let text: &[u8] = document.redacted_text.as_str().as_bytes();
    append_number(&mut frame, text.len() as u128, 8);
    append_bytes(&mut frame, text);
    frame
}

/// The bytes that are hashed for the deletion of a build at a position.
pub open spec fn deletion_frame(project_id: u128, build_id: u128, position: u64) -> Seq<u8> {
    utf8("octacity.log-search-work.v1\0delete_build"@) + big_endian_bytes(position as nat, 8) + big_endian_bytes(
        project_id as nat,
        16,
    ) + big_endian_bytes(build_id as nat, 16)
}

/// The digest by which the deletion of a build at a position is recognised.
pub fn delete_digest(project_id: u128, build_id: u128, position: u64) -> (digest: [u8; 32])
    ensures
        digest@ == sha256_of(deletion_frame(project_id, build_id, position)),
{
    let mut frame: Vec<u8> = Vec::new();
    append_bytes(&mut frame, "octacity.log-search-work.v1\0delete_build".as_bytes());
    append_number(&mut frame, position as u128, 8);
    append_number(&mut frame, project_id, 16);
    append_number(&mut frame, build_id, 16);
    assert(frame@ =~= deletion_frame(project_id, build_id, position));
    sha256(frame.as_slice())
}

proof fn joined_parts_are_separate(a: Seq<u8>, b: Seq<u8>, x: Seq<u8>, y: Seq<u8>)
    requires
        a.len() == b.len(),
        a + x == b + y,
    ensures
        a == b,
        x == y,
{
    let joined = a + x;
    assert(joined.subrange(0, a.len() as int) =~= a);
    assert((b + y).subrange(0, a.len() as int) =~= b);
    assert(joined.subrange(a.len() as int, joined.len() as int) =~= x);
    assert((b + y).subrange(a.len() as int, joined.len() as int) =~= y);
}

proof fn joined_numbers_are_separate(a: Seq<u8>, b: Seq<u8>, x: nat, y: nat, length: nat)
    requires
        a.len() == b.len(),
        x < byte_bound(length),
        y < byte_bound(length),
        a + big_endian_bytes(x, length) == b + big_endian_bytes(y, length),
    ensures
        a == b,
        x == y,
{
    joined_parts_are_separate(a, b, big_endian_bytes(x, length), big_endian_bytes(y, length));
    big_endian_bytes_name_one_number(x, y, length);
}

proof fn byte_bounds()
    ensures
        byte_bound(8) == 0x1_0000_0000_0000_0000,
        byte_bound(16) == 0x1_0000_0000_0000_0000_0000_0000_0000_0000,
{
    reveal_with_fuel(byte_bound, 17);
}

proof fn stream_names_have_one_length(stream: BuildLogStream)
    ensures
        utf8(stream_name_text(stream)).len() == 6,
{
    reveal_strlit("stdout");
    reveal_strlit("stderr");
    let name = stream_name_text(stream);
    assert(name.len() == 6);
    assert(forall|i: int| 0 <= i < name.len() ==> '\0' < #[trigger] name[i] < '\u{7f}');
    is_ascii_chars_encode_utf8(name);
}

proof fn stream_names_are_separate(a: BuildLogStream, b: BuildLogStream)
    requires
        utf8(stream_name_text(a)) == utf8(stream_name_text(b)),
    ensures
        a == b,
{
    encode_utf8_decode_utf8(stream_name_text(a));
    encode_utf8_decode_utf8(stream_name_text(b));
    stream_name_text_names_one_value(a, b);
}

proof fn document_heads_are_separate(a: LogSearchDocument, p: u64, b: LogSearchDocument, q: u64)
    requires
        document_head(a, p) == document_head(b, q),
        utf8(stream_name_text(a.stream)).len() == 6,
        utf8(stream_name_text(b.stream)).len() == 6,
    ensures
        p == q,
        a.chunk_id == b.chunk_id,
        a.project_id == b.project_id,
        a.build_id == b.build_id,
        a.attempt_id == b.attempt_id,
        a.job_id == b.job_id,
        a.stream == b.stream,
        a.first_sequence == b.first_sequence,
        a.last_sequence == b.last_sequence,
        a.occurred_at as u64 == b.occurred_at as u64,
{
    byte_bounds();
    let mark = utf8("octacity.log-search-document.v1\0"@);
    big_endian_bytes_have_their_length(p as nat, 8);
    big_endian_bytes_have_their_length(q as nat, 8);
    let a1 = mark + big_endian_bytes(p as nat, 8);
    let b1 = mark + big_endian_bytes(q as nat, 8);
    big_endian_bytes_have_their_length(a.chunk_id as nat, 16);
    big_endian_bytes_have_their_length(b.chunk_id as nat, 16);
    let a2 = a1 + big_endian_bytes(a.chunk_id as nat, 16);
    let b2 = b1 + big_endian_bytes(b.chunk_id as nat, 16);
    big_endian_bytes_have_their_length(a.project_id as nat, 16);
    big_endian_bytes_have_their_length(b.project_id as nat, 16);
    let a3 = a2 + big_endian_bytes(a.project_id as nat, 16);
    let b3 = b2 + big_endian_bytes(b.project_id as nat, 16);
    big_endian_bytes_have_their_length(a.build_id as nat, 16);
    big_endian_bytes_have_their_length(b.build_id as nat, 16);
    let a4 = a3 + big_endian_bytes(a.build_id as nat, 16);
    let b4 = b3 + big_endian_bytes(b.build_id as nat, 16);
    big_endian_bytes_have_their_length(a.attempt_id as nat, 16);
    big_endian_bytes_have_their_length(b.attempt_id as nat, 16);
    let a5 = a4 + big_endian_bytes(a.attempt_id as nat, 16);
    let b5 = b4 + big_endian_bytes(b.attempt_id as nat, 16);
    big_endian_bytes_have_their_length(a.job_id as nat, 16);
    big_endian_bytes_have_their_length(b.job_id as nat, 16);
    let a6 = a5 + big_endian_bytes(a.job_id as nat, 16);
    let b6 = b5 + big_endian_bytes(b.job_id as nat, 16);
    let a7 = a6 + utf8(stream_name_text(a.stream));
    let b7 = b6 + utf8(stream_name_text(b.stream));
    big_endian_bytes_have_their_length(a.first_sequence as nat, 8);
    big_endian_bytes_have_their_length(b.first_sequence as nat, 8);
    let a8 = a7 + big_endian_bytes(a.first_sequence as nat, 8);
    let b8 = b7 + big_endian_bytes(b.first_sequence as nat, 8);
    big_endian_bytes_have_their_length(a.last_sequence as nat, 8);
    big_endian_bytes_have_their_length(b.last_sequence as nat, 8);
    let a9 = a8 + big_endian_bytes(a.last_sequence as nat, 8);
    let b9 = b8 + big_endian_bytes(b.last_sequence as nat, 8);
    joined_numbers_are_separate(a9, b9, a.occurred_at as u64 as nat, b.occurred_at as u64 as nat, 8);
    joined_numbers_are_separate(a8, b8, a.last_sequence as nat, b.last_sequence as nat, 8);
    joined_numbers_are_separate(a7, b7, a.first_sequence as nat, b.first_sequence as nat, 8);
    joined_parts_are_separate(a6, b6, utf8(stream_name_text(a.stream)), utf8(stream_name_text(b.stream)));
    stream_names_are_separate(a.stream, b.stream);
    joined_numbers_are_separate(a5, b5, a.job_id as nat, b.job_id as nat, 16);
    joined_numbers_are_separate(a4, b4, a.attempt_id as nat, b.attempt_id as nat, 16);
    joined_numbers_are_separate(a3, b3, a.build_id as nat, b.build_id as nat, 16);
    joined_numbers_are_separate(a2, b2, a.project_id as nat, b.project_id as nat, 16);
    joined_numbers_are_separate(a1, b1, a.chunk_id as nat, b.chunk_id as nat, 16);
    joined_numbers_are_separate(mark, mark, p as nat, q as nat, 8);
}

proof fn document_heads_have_one_length(document: LogSearchDocument, position: u64)
    ensures
        document_head(document, position).len() == utf8("octacity.log-search-document.v1\0"@).len() + 8 + 5 * 16 + 6
            + 3 * 8,
{
    stream_names_have_one_length(document.stream);
    big_endian_bytes_have_their_length(position as nat, 8);
    big_endian_bytes_have_their_length(document.chunk_id as nat, 16);
    big_endian_bytes_have_their_length(document.project_id as nat, 16);
    big_endian_bytes_have_their_length(document.build_id as nat, 16);
    big_endian_bytes_have_their_length(document.attempt_id as nat, 16);
    big_endian_bytes_have_their_length(document.job_id as nat, 16);
    big_endian_bytes_have_their_length(document.first_sequence as nat, 8);
    big_endian_bytes_have_their_length(document.last_sequence as nat, 8);
    big_endian_bytes_have_their_length(document.occurred_at as u64 as nat, 8);
}

/// Two documents are hashed as the same bytes only where they are the same, at the same position.
pub proof fn document_frames_are_separate(a: LogSearchDocument, p: u64, b: LogSearchDocument, q: u64)
    requires
        is_timestamp(a.occurred_at),
        is_timestamp(b.occurred_at),
        document_frame(a, p) == document_frame(b, q),
    ensures
        p == q,
        same_document_as(a, b),
{
    document_heads_have_one_length(a, p);
    document_heads_have_one_length(b, q);
    stream_names_have_one_length(a.stream);
    stream_names_have_one_length(b.stream);
    let x = utf8(a.redacted_text@);
    let y = utf8(b.redacted_text@);
    big_endian_bytes_have_their_length(x.len(), 8);
    big_endian_bytes_have_their_length(y.len(), 8);
    joined_parts_are_separate(
        document_head(a, p) + big_endian_bytes(x.len(), 8),
        document_head(b, q) + big_endian_bytes(y.len(), 8),
        x,
        y,
    );
    joined_parts_are_separate(
        document_head(a, p),
        document_head(b, q),
        big_endian_bytes(x.len(), 8),
        big_endian_bytes(y.len(), 8),
    );
    document_heads_are_separate(a, p, b, q);
    encode_utf8_decode_utf8(a.redacted_text@);
    encode_utf8_decode_utf8(b.redacted_text@);
}

/// What a piece of work did to the index.
#[derive(Clone, Copy, Debug, PartialEq, Eq, Structural)]
pub enum AppliedOperation {
    /// It indexed a chunk.
    Index,
    /// It forgot a build.
    Delete,
    /// It indexed a chunk again.
    Rebuild,
}

/// The name an operation is stored under.
pub open spec fn operation_text(operation: AppliedOperation) -> Seq<char> {
    match operation {
        AppliedOperation::Index => "index"@,
        AppliedOperation::Delete => "delete_build"@,
        AppliedOperation::Rebuild => "rebuild"@,
    }
}

/// Whether an operation repeats a recorded one: indexing a chunk and indexing it again count as one.
pub open spec fn repeats(operation: AppliedOperation, recorded: Seq<char>) -> bool {
    match operation {
        AppliedOperation::Delete => recorded == "delete_build"@,
        _ => recorded == "index"@ || recorded == "rebuild"@,
    }
}

/// What an operation does with the index.
pub open spec fn done_with_index(operation: AppliedOperation) -> LogSearchOperation {
    match operation {
        AppliedOperation::Index => LogSearchOperation::Index,
        AppliedOperation::Delete => LogSearchOperation::Delete,
        AppliedOperation::Rebuild => LogSearchOperation::Rebuild,
    }
}

impl AppliedOperation {
    /// What the operation does with the index.
    pub fn log_operation(self) -> (operation: LogSearchOperation)
        ensures
            operation == done_with_index(self),
    {
        match self {
            AppliedOperation::Index => LogSearchOperation::Index,
            AppliedOperation::Delete => LogSearchOperation::Delete,
            AppliedOperation::Rebuild => LogSearchOperation::Rebuild,
        }
    }

    /// Names an operation.
    pub fn as_str(self) -> (name: &'static str)
        ensures
            name@ == operation_text(self),
    {
        match self {
            AppliedOperation::Index => "index",
            AppliedOperation::Delete => "delete_build",
            AppliedOperation::Rebuild => "rebuild",
        }
    }

    /// Whether an operation repeats a recorded one.
    pub fn replays(self, recorded: &str) -> (same: bool)
        ensures
            same == repeats(self, recorded@),
    {
        same_text(recorded, self.as_str()) || matches!(self, AppliedOperation::Index | AppliedOperation::Rebuild) && (
        same_text(recorded, "index") || same_text(recorded, "rebuild"))
    }
}

/// An operation repeats another exactly where the other repeats it.
pub proof fn repetition_is_symmetric(a: AppliedOperation, b: AppliedOperation)
    ensures
        repeats(a, operation_text(a)),
        repeats(a, operation_text(b)) == repeats(b, operation_text(a)),
{
    reveal_strlit("index");
    reveal_strlit("rebuild");
    reveal_strlit("delete_build");
    assert("index"@.len() == 5);
    assert("rebuild"@.len() == 7);
    assert("delete_build"@.len() == 12);
}

/// What became of a write to the index.
#[derive(Clone, Copy, Debug, PartialEq, Eq, Structural)]
pub enum LogSearchMutationDisposition {
    /// It was applied.
    Applied,
    /// It had been applied before.
    Replayed,
    /// It came after the deletion of its build, and wrote no document.
    Superseded,
}

/// Work that was applied.
pub struct AppliedWork {
    /// What it did.
    pub operation: String,
    /// Digest of its request.
    pub request_digest: Vec<u8>,
    /// What became of it.
    pub disposition: String,
}

/// What the work on record says of a request; nothing where there is none.
pub open spec fn replayed(
    recorded: Option<AppliedWork>,
    work_id: u128,
    operation: AppliedOperation,
    digest: Seq<u8>,
) -> Result<Option<LogSearchMutationDisposition>, LogSearchError> {
    match recorded {
        None => Ok(None),
        Some(recorded) => if !repeats(operation, recorded.operation@) || recorded.request_digest@ != digest {
            Err(LogSearchError::WorkConflict { work_id })
        } else if recorded.disposition@ == "applied"@ || recorded.disposition@ == "superseded"@ {
            Ok(Some(LogSearchMutationDisposition::Replayed))
        } else {
            Err(LogSearchError::Unavailable)
        },
    }
}

/// Decides whether a request was applied before.
pub fn replay(recorded: &Option<AppliedWork>, work_id: u128, operation: AppliedOperation, digest: &[u8]) -> (result:
    Result<Option<LogSearchMutationDisposition>, LogSearchError>)
    ensures
        result == replayed(*recorded, work_id, operation, digest@),
{
    match recorded {
        None => Ok(None),
        Some(recorded) => {
            if !operation.replays(recorded.operation.as_str()) || !same_bytes(
                recorded.request_digest.as_slice(),
                digest,
            ) {
                return Err(LogSearchError::WorkConflict { work_id });
            }
            if same_text(recorded.disposition.as_str(), "applied") || same_text(
                recorded.disposition.as_str(),
                "superseded",
            ) {
                Ok(Some(LogSearchMutationDisposition::Replayed))
            } else {
                Err(LogSearchError::Unavailable)
            }
        },
    }
}

/// The name under which the outcome of applied work is stored; a repetition is never stored.
pub open spec fn stored_disposition(disposition: LogSearchMutationDisposition) -> Option<&'static str> {
    match disposition {
        LogSearchMutationDisposition::Applied => Some("applied"),
        LogSearchMutationDisposition::Superseded => Some("superseded"),
        LogSearchMutationDisposition::Replayed => None,
    }
}

/// Applied work as it is written.
pub struct AppliedWorkEntry {
    /// The work.
    pub work_id: u128,
    /// Its project.
    pub project_id: u128,
    /// Its place in the project's order.
    pub position: i64,
    /// What it did.
    pub operation: &'static str,
    /// Digest of its request.
    pub request_digest: [u8; 32],
    /// What became of it.
    pub disposition: &'static str,
}

/// Builds the record of applied work.
pub fn record_work(
    work_id: u128,
    project_id: u128,
    position: u64,
    operation: AppliedOperation,
    digest: [u8; 32],
    disposition: LogSearchMutationDisposition,
) -> (result: Result<AppliedWorkEntry, LogSearchError>)
    ensures
        match result {
            Ok(entry) => {
                &&& stored_disposition(disposition) == Some(entry.disposition)
                &&& entry.work_id == work_id
                &&& entry.project_id == project_id
                &&& entry.position == position
                &&& entry.operation@ == operation_text(operation)
                &&& entry.request_digest == digest
            },
            Err(error) => error == LogSearchError::Unavailable && (stored_disposition(disposition) is None || position
                > i64::MAX),
        },
{
    let disposition = match disposition {
        LogSearchMutationDisposition::Applied => "applied",
        LogSearchMutationDisposition::Superseded => "superseded",
        LogSearchMutationDisposition::Replayed => {
            return Err(LogSearchError::Unavailable);
        },
    };
    let position: i64 = position_number(position)?;
    Ok(
        AppliedWorkEntry {
            work_id,
            project_id,
            position,
            operation: operation.as_str(),
            request_digest: digest,
            disposition,
        },
    )
}

/// Work that was recorded is recognised when the same request comes again, and a request with another
/// digest is refused.
pub proof fn recorded_work_is_recognised(
    recorded: AppliedWork,
    work_id: u128,
    operation: AppliedOperation,
    disposition: LogSearchMutationDisposition,
    digest: Seq<u8>,
    other: Seq<u8>,
)
    requires
        recorded.operation@ == operation_text(operation),
        recorded.request_digest@ == digest,
        stored_disposition(disposition) matches Some(name) && recorded.disposition@ == name@,
        other != digest,
    ensures
        replayed(Some(recorded), work_id, operation, digest) == Ok::<Option<LogSearchMutationDisposition>, LogSearchError>(
            Some(LogSearchMutationDisposition::Replayed),
        ),
        replayed(Some(recorded), work_id, operation, other) == Err::<
            Option<LogSearchMutationDisposition>,
            LogSearchError,
        >(LogSearchError::WorkConflict { work_id }),
{
}

/// Reads the failure to record work: a record that is there already belongs to other work.
pub fn classify_record(sql_state: &Option<String>, work_id: u128) -> (error: LogSearchError)
    ensures
        error == (if sql_state matches Some(code) && code@ == "23505"@ {
            LogSearchError::WorkConflict { work_id }
        } else {
            LogSearchError::Unavailable
        }),
{
    match sql_state {
        Some(code) => if same_text(code.as_str(), "23505") {
            LogSearchError::WorkConflict { work_id }
        } else {
            LogSearchError::Unavailable
        },
        None => LogSearchError::Unavailable,
    }
}

/// A position as it is stored.
pub fn position_number(position: u64) -> (result: Result<i64, LogSearchError>)
    ensures
        match result {
            Ok(stored) => stored == position,
            Err(error) => error == LogSearchError::Unavailable && position > i64::MAX,
        },
{
    if position > i64::MAX as u64 {
        Err(LogSearchError::Unavailable)
    } else {
        Ok(position as i64)
    }
}

/// A position of a job's log as it is stored.
pub fn sequence_number(sequence: u64) -> (result: Result<i64, LogSearchError>)
    ensures
        match result {
            Ok(stored) => stored == sequence,
            Err(error) => error == LogSearchError::Unavailable && sequence > i64::MAX,
        },
{
    position_number(sequence)
}

/// A document as the index holds it.
pub struct SearchRow {
    /// The chunk it comes from.
    pub chunk_id: u128,
    /// Its build.
    pub build_id: u128,
    /// Its attempt.
    pub attempt_id: u128,
    /// Its job.
    pub job_id: u128,
    /// Its stream.
    pub stream: String,
    /// First position of the job's log in it.
    pub first_sequence: i64,
    /// Last position of the job's log in it.
    pub last_sequence: i64,
    /// When it was recorded.
    pub occurred_at_millis: i64,
    /// Its text.
    pub normalized_text: String,
}

/// Whether a row can be read.
pub open spec fn is_readable(row: SearchRow) -> bool {
    &&& is_identity(row.chunk_id) && is_identity(row.build_id) && is_identity(row.attempt_id) && is_identity(row.job_id)
    &&& exists|stream: BuildLogStream| row.stream@ == #[trigger] stream_name_text(stream)
    &&& row.first_sequence >= 0 && row.last_sequence >= 0
    &&& is_timestamp(row.occurred_at_millis)
}

/// Whether a document is the one of a row.
pub open spec fn is_document_of(document: LogSearchDocument, row: SearchRow, project_id: u128) -> bool {
    &&& document.chunk_id == row.chunk_id
    &&& document.project_id == project_id
    &&& document.build_id == row.build_id
    &&& document.attempt_id == row.attempt_id
    &&& document.job_id == row.job_id
    &&& row.stream@ == stream_name_text(document.stream)
    &&& document.first_sequence == row.first_sequence
    &&& document.last_sequence == row.last_sequence
    &&& document.occurred_at == row.occurred_at_millis
    &&& document.redacted_text@ == row.normalized_text@
}

impl SearchRow {
    /// Reads a document of the index.
    pub fn into_document(&self, project_id: u128) -> (result: Result<LogSearchDocument, LogSearchError>)
        ensures
            match result {
                Ok(document) => is_readable(*self) && is_document_of(document, *self, project_id),
                Err(error) => error == LogSearchError::Unavailable && !is_readable(*self),
            },
    {
        if self.chunk_id == 0 || self.build_id == 0 || self.attempt_id == 0 || self.job_id == 0 {
            return Err(LogSearchError::Unavailable);
        }
        let stream = match parse_stream_name(self.stream.as_str()) {
            Ok(stream) => {
                assert(self.stream@ == stream_name_text(stream));
                stream
            },
            Err(_) => {
                return Err(LogSearchError::Unavailable);
            },
        };
        if self.first_sequence < 0 || self.last_sequence < 0 || self.occurred_at_millis < 0 {
            return Err(LogSearchError::Unavailable);
        }
        Ok(
            LogSearchDocument {
                chunk_id: self.chunk_id,
                project_id,
                build_id: self.build_id,
                attempt_id: self.attempt_id,
                job_id: self.job_id,
                stream,
                first_sequence: self.first_sequence as u64,
                last_sequence: self.last_sequence as u64,
                occurred_at: self.occurred_at_millis,
                redacted_text: self.normalized_text.clone(),
            },
        )
    }
}

/// The columns of a document that hold numbers.
pub fn document_numbers(document: &LogSearchDocument) -> (result: Result<(i64, i64), LogSearchError>)
    ensures
        match result {
            Ok(numbers) => numbers.0 == document.first_sequence && numbers.1 == document.last_sequence,
            Err(error) => error == LogSearchError::Unavailable && (document.first_sequence > i64::MAX
                || document.last_sequence > i64::MAX),
        },
{
    let first: i64 = sequence_number(document.first_sequence)?;
    let last: i64 = sequence_number(document.last_sequence)?;
    Ok((first, last))
}

/// What persisting a document comes to: `inserted_rows` is what the insertion wrote, and `existing` the
/// document of the same chunk that was there where that wrote nothing.
pub open spec fn persistence(inserted_rows: u64, existing: Option<SearchRow>, document: LogSearchDocument) -> Result<
    (),
    LogSearchError,
> {
    if inserted_rows == 1 {
        Ok(())
    } else {
        match existing {
            None => Err(LogSearchError::Unavailable),
            Some(row) => if !is_readable(row) {
                Err(LogSearchError::Unavailable)
            } else if is_document_of(document, row, document.project_id) {
                Ok(())
            } else {
                Err(LogSearchError::DocumentConflict { chunk_id: document.chunk_id })
            },
        }
    }
}

/// Decides whether a document is in the index: the same one may have been there already, another one of
/// the same chunk may not.
pub fn persist_document(inserted_rows: u64, existing: &Option<SearchRow>, document: &LogSearchDocument) -> (result:
    Result<(), LogSearchError>)
    ensures
        result == persistence(inserted_rows, *existing, *document),
{
    if inserted_rows == 1 {
        return Ok(());
    }
    match existing {
        None => Err(LogSearchError::Unavailable),
        Some(row) => {
            let found = row.into_document(document.project_id)?;
            if same_document(&found, document) {
                Ok(())
            } else {
                proof {
                    if is_document_of(*document, *row, document.project_id) {
                        stream_name_text_names_one_value(found.stream, document.stream);
                    }
                }
                Err(LogSearchError::DocumentConflict { chunk_id: document.chunk_id })
            }
        },
    }
}

/// What becomes of a document whose build may have been deleted, and whether it is written at all.
pub open spec fn placement(tombstoned: bool) -> (LogSearchMutationDisposition, bool) {
    if tombstoned {
        (LogSearchMutationDisposition::Superseded, false)
    } else {
        (LogSearchMutationDisposition::Applied, true)
    }
}

/// Decides what becomes of a document, and whether it is written at all.
pub fn place_document(tombstoned: bool) -> (result: (LogSearchMutationDisposition, bool))
    ensures
        result == placement(tombstoned),
{
    if tombstoned {
        (LogSearchMutationDisposition::Superseded, false)
    } else {
        (LogSearchMutationDisposition::Applied, true)
    }
}

/// A request to index a document.
pub struct WriteLogSearchDocument {
    /// The work.
    pub work_id: u128,
    /// Its place in the project's order.
    pub position: u64,
    /// The document.
    pub document: LogSearchDocument,
}

/// What a write meets in the index.
pub struct IndexSurroundings {
    /// The work on record.
    pub recorded: Option<AppliedWork>,
    /// Whether the build of the document was deleted.
    pub tombstoned: bool,
    /// What inserting the document wrote.
    pub inserted_rows: u64,
    /// The document of the same chunk, where inserting wrote nothing.
    pub existing: Option<SearchRow>,
}

/// What indexing a document comes to, given the digest of the request.
pub open spec fn application(
    validated: Result<(), LogSearchInputError>,
    request: WriteLogSearchDocument,
    operation: AppliedOperation,
    digest: Seq<u8>,
    met: IndexSurroundings,
) -> Result<LogSearchMutationDisposition, LogSearchError> {
    match validated {
        Err(source) => Err(LogSearchError::InvalidInput { operation: done_with_index(operation), source }),
        Ok(()) => match replayed(met.recorded, request.work_id, operation, digest) {
            Err(error) => Err(error),
            Ok(Some(disposition)) => Ok(disposition),
            Ok(None) => if !met.tombstoned && (request.document.first_sequence > i64::MAX
                || request.document.last_sequence > i64::MAX) {
                Err(LogSearchError::Unavailable)
            } else if !met.tombstoned && persistence(met.inserted_rows, met.existing, request.document) is Err {
                Err(persistence(met.inserted_rows, met.existing, request.document)->Err_0)
            } else if request.position > i64::MAX {
                Err(LogSearchError::Unavailable)
            } else {
                Ok(placement(met.tombstoned).0)
            },
        },
    }
}

/// What became of a write, and what is recorded of it; nothing where it is a repetition.
pub struct AppliedWrite {
    /// What became of it.
    pub disposition: LogSearchMutationDisposition,
    /// What is recorded.
    pub entry: Option<AppliedWorkEntry>,
}

/// Whether a write is recorded as it was applied.
pub open spec fn is_applied(
    applied: AppliedWrite,
    disposition: LogSearchMutationDisposition,
    work_id: u128,
    project_id: u128,
    position: u64,
    operation: AppliedOperation,
    digest: Seq<u8>,
) -> bool {
    &&& applied.disposition == disposition
    &&& match applied.entry {
        None => disposition == LogSearchMutationDisposition::Replayed,
        Some(entry) => {
            &&& stored_disposition(disposition) == Some(entry.disposition)
            &&& entry.work_id == work_id
            &&& entry.project_id == project_id
            &&& entry.position == position
            &&& entry.operation@ == operation_text(operation)
            &&& entry.request_digest@ == digest
        },
    }
}

/// Decides what becomes of a document, given the digest of the request: a repetition writes nothing, one of a deleted
/// build is only recorded, and any other has to be in the index.
pub fn apply_digested(
    validated: Result<(), LogSearchInputError>,
    request: &WriteLogSearchDocument,
    operation: AppliedOperation,
    digest: [u8; 32],
    met: &IndexSurroundings,
) -> (result: Result<AppliedWrite, LogSearchError>)
    ensures
        match application(validated, *request, operation, digest@, *met) {
            Err(refusal) => result matches Err(error) && error == refusal,
            Ok(disposition) => result matches Ok(applied) && is_applied(
                applied,
                disposition,
                request.work_id,
                request.document.project_id,
                request.position,
                operation,
                digest@,
            ),
        },
{
    match validated {
        Ok(()) => {},
        Err(source) => {
            return Err(LogSearchError::InvalidInput { operation: operation.log_operation(), source });
        },
    }
    match replay(&met.recorded, request.work_id, operation, &digest) {
        Ok(Some(disposition)) => {
            return Ok(AppliedWrite { disposition, entry: None });
        },
        Ok(None) => {},
        Err(error) => {
            return Err(error);
        },
    }
    let (disposition, persist) = place_document(met.tombstoned);
    if persist {
        match document_numbers(&request.document) {
            Ok(_) => {},
            Err(error) => {
                return Err(error);
            },
        }
        match persist_document(met.inserted_rows, &met.existing, &request.document) {
            Ok(()) => {},
            Err(error) => {
                return Err(error);
            },
        }
    }
    match record_work(
        request.work_id,
        request.document.project_id,
        request.position,
        operation,
        digest,
        disposition,
    ) {
        Ok(entry) => Ok(AppliedWrite { disposition, entry: Some(entry) }),
        Err(error) => Err(error),
    }
}

/// Decides what becomes of a document: `validated` is the verdict on it by itself.
pub fn apply_document(
    validated: Result<(), LogSearchInputError>,
    request: &WriteLogSearchDocument,
    operation: AppliedOperation,
    met: &IndexSurroundings,
) -> (result: Result<AppliedWrite, LogSearchError>)
    ensures
        ({
            let digest = sha256_of(document_frame(request.document, request.position));
            match application(validated, *request, operation, digest, *met) {
                Err(refusal) => result matches Err(error) && error == refusal,
                Ok(disposition) => result matches Ok(applied) && is_applied(
                    applied,
                    disposition,
                    request.work_id,
                    request.document.project_id,
                    request.position,
                    operation,
                    digest,
                ),
            }
        }),
{
    let digest = document_digest(&request.document, request.position);
    apply_digested(validated, request, operation, digest, met)
}

/// What deleting the documents of a build comes to, given the digest of the request.
pub open spec fn deletion(recorded: Option<AppliedWork>, work_id: u128, position: u64, digest: Seq<u8>) -> Result<
    LogSearchMutationDisposition,
    LogSearchError,
> {
    match replayed(recorded, work_id, AppliedOperation::Delete, digest) {
        Err(error) => Err(error),
        Ok(Some(disposition)) => Ok(disposition),
        Ok(None) => if position > i64::MAX {
            Err(LogSearchError::Unavailable)
        } else {
            Ok(LogSearchMutationDisposition::Applied)
        },
    }
}

/// Decides the deletion of the documents of a build, given the digest of the request.
pub fn delete_digested(
    recorded: &Option<AppliedWork>,
    work_id: u128,
    project_id: u128,
    position: u64,
    digest: [u8; 32],
) -> (result: Result<AppliedWrite, LogSearchError>)
    ensures
        match deletion(*recorded, work_id, position, digest@) {
            Err(refusal) => result matches Err(error) && error == refusal,
            Ok(disposition) => result matches Ok(applied) && is_applied(
                applied,
                disposition,
                work_id,
                project_id,
                position,
                AppliedOperation::Delete,
                digest@,
            ),
        },
{
    match replay(recorded, work_id, AppliedOperation::Delete, &digest) {
        Ok(Some(disposition)) => {
            return Ok(AppliedWrite { disposition, entry: None });
        },
        Ok(None) => {},
        Err(error) => {
            return Err(error);
        },
    }
    let disposition = LogSearchMutationDisposition::Applied;
    match record_work(work_id, project_id, position, AppliedOperation::Delete, digest, disposition) {
        Ok(entry) => Ok(AppliedWrite { disposition, entry: Some(entry) }),
        Err(error) => Err(error),
    }
}

/// Decides the deletion of the documents of a build.
pub fn delete(recorded: &Option<AppliedWork>, work_id: u128, project_id: u128, build_id: u128, position: u64) -> (result:
    Result<AppliedWrite, LogSearchError>)
    ensures
        ({
            let digest = sha256_of(deletion_frame(project_id, build_id, position));
            match deletion(*recorded, work_id, position, digest) {
                Err(refusal) => result matches Err(error) && error == refusal,
                Ok(disposition) => result matches Ok(applied) && is_applied(
                    applied,
                    disposition,
                    work_id,
                    project_id,
                    position,
                    AppliedOperation::Delete,
                    digest,
                ),
            }
        }),
{
    let digest = delete_digest(project_id, build_id, position);
    delete_digested(recorded, work_id, project_id, position, digest)
}

/// The index of a project: the build of each document, and the builds that were deleted.
pub ghost struct ProjectIndex {
    /// The build of each document, by the document's chunk.
    pub documents: Map<u128, u128>,
    /// The builds that were deleted.
    pub tombstones: Set<u128>,
}

/// What can happen to the index of a project.
pub ghost enum IndexStep {
    /// A document is indexed, or indexed again.
    Write { chunk_id: u128, build_id: u128 },
    /// The documents of a build are deleted.
    Delete { build_id: u128 },
    /// All documents are dropped, and the builds whose deletion is on record are deleted again.
    StartRebuild { deleted: Set<u128> },
}

/// The index after a step.
pub open spec fn after_step(index: ProjectIndex, step: IndexStep) -> ProjectIndex {
    match step {
        IndexStep::Write { chunk_id, build_id } => if placement(index.tombstones.contains(build_id)).1
            && !index.documents.contains_key(chunk_id) {
            ProjectIndex { documents: index.documents.insert(chunk_id, build_id), ..index }
        } else {
            index
        },
        IndexStep::Delete { build_id } => ProjectIndex {
            documents: index.documents.remove_keys(
                Set::new(|chunk_id: u128| index.documents.contains_key(chunk_id) && index.documents[chunk_id] == build_id),
            ),
            tombstones: index.tombstones.insert(build_id),
        },
        IndexStep::StartRebuild { deleted } => ProjectIndex {
            documents: Map::empty(),
            tombstones: index.tombstones.union(deleted),
        },
    }
}

/// The index after some steps.
pub open spec fn after_steps(index: ProjectIndex, steps: Seq<IndexStep>) -> ProjectIndex
    decreases steps.len(),
{
    if steps.len() == 0 {
        index
    } else {
        after_step(after_steps(index, steps.drop_last()), steps.last())
    }
}

/// Whether no document of a deleted build can be found.
pub open spec fn hides_deleted(index: ProjectIndex) -> bool {
    forall|chunk_id: u128| #[trigger]
        index.documents.contains_key(chunk_id) ==> !index.tombstones.contains(index.documents[chunk_id])
}

/// Once the documents of a build are deleted, nothing makes them visible again: neither a late write nor
/// a rebuild.
pub proof fn deleted_builds_stay_hidden(index: ProjectIndex, build_id: u128, steps: Seq<IndexStep>)
    requires
        hides_deleted(index),
    ensures
        ({
            let later = after_steps(after_step(index, IndexStep::Delete { build_id }), steps);
            &&& hides_deleted(later)
            &&& later.tombstones.contains(build_id)
            &&& forall|chunk_id: u128| #[trigger]
                later.documents.contains_key(chunk_id) ==> later.documents[chunk_id] != build_id
        }),
    decreases steps.len(),
{
    if steps.len() > 0 {
        deleted_builds_stay_hidden(index, build_id, steps.drop_last());
    }
}

/// The position to write where the index got further.
pub fn advance_freshness(current: i64, advanced: i64) -> (indexed_through: Option<i64>)
    ensures
        indexed_through == (if advanced > current {
            Some(advanced)
        } else {
            None
        }),
{
    if advanced > current {
        Some(advanced)
    } else {
        None
    }
}

/// The position through which a project is indexed, where it is indexed at all.
pub fn read_indexed_through(position: Option<i64>) -> (result: Result<Option<u64>, LogSearchError>)
    ensures
        result == read_position(position),
{
    match position {
        None => Ok(None),
        Some(position) => if position > 0 {
            Ok(Some(position as u64))
        } else {
            Err(LogSearchError::Unavailable)
        },
    }
}

/// A position column, read.
pub open spec fn read_position(position: Option<i64>) -> Result<Option<u64>, LogSearchError> {
    match position {
        None => Ok(None),
        Some(position) => if is_version(position) {
            Ok(Some(position as u64))
        } else {
            Err(LogSearchError::Unavailable)
        },
    }
}

/// Work that a rebuild of the index has prepared.
#[derive(Clone, Copy, Debug, PartialEq, Eq, Structural)]
pub struct LogSearchRebuildSummary {
    /// Project whose index was reset.
    pub project_id: u128,
    /// Pieces of work that are to be done again.
    pub queued: u64,
    /// Position through which work was queued.
    pub committed_through: Option<u64>,
}

/// Sums up the start of a rebuild; `requeued_rows` is what queueing the work again wrote, where the
/// project had any.
pub fn start_rebuild(project_id: u128, committed_through: Option<i64>, requeued_rows: u64) -> (result: Result<
    LogSearchRebuildSummary,
    LogSearchError,
>)
    ensures
        result == (match read_position(committed_through) {
            Err(error) => Err(error),
            Ok(through) => Ok::<LogSearchRebuildSummary, LogSearchError>(
                LogSearchRebuildSummary {
                    project_id,
                    queued: if committed_through is Some {
                        requeued_rows
                    } else {
                        0
                    },
                    committed_through: through,
                },
            ),
        }),
{
    let queued: u64 = if committed_through.is_some() {
        requeued_rows
    } else {
        0
    };
    let committed_through: Option<u64> = read_indexed_through(committed_through)?;
    Ok(LogSearchRebuildSummary { project_id, queued, committed_through })
}

/// How a text is searched for.
#[derive(Clone, Copy, Debug, PartialEq, Eq, Structural)]
pub enum LogSearchMode {
    /// By its words.
    FullText,
    /// As it is.
    Literal,
}

/// A place in the results of a search.
#[derive(Clone, Copy, Debug, PartialEq, Eq, Structural)]
pub struct LogSearchCursor {
    /// When the last document before it was recorded.
    pub occurred_at: i64,
    /// Chunk of that document.
    pub chunk_id: u128,
}

/// A search.
pub struct LogSearchQuery {
    /// The project to search in.
    pub project_id: u128,
    /// What to search for.
    pub text: String,
    /// How.
    pub mode: LogSearchMode,
    /// Only this build.
    pub build_id: Option<u128>,
    /// Only this attempt.
    pub attempt_id: Option<u128>,
    /// Only this job.
    pub job_id: Option<u128>,
    /// Only this stream.
    pub stream: Option<BuildLogStream>,
    /// Only what was recorded then or later.
    pub occurred_from: Option<i64>,
    /// Only what was recorded then or earlier.
    pub occurred_through: Option<i64>,
    /// Only what comes after this place.
    pub after: Option<LogSearchCursor>,
    /// How many results to give at most.
    pub limit: u16,
}

/// A part of a statement: text as it stands, or a value that is bound in its place.
pub enum SqlPart {
    /// Text of the statement.
    Text(&'static str),
    /// An identity.
    Identity(u128),
    /// A text that is bound.
    Bound(String),
    /// A name that is bound.
    Name(&'static str),
    /// A number.
    Number(i64),
}

/// What a part of a statement says.
pub ghost enum PartView {
    /// Text of the statement.
    Text(Seq<char>),
    /// An identity.
    Identity(u128),
    /// A text that is bound.
    Bound(Seq<char>),
    /// A number.
    Number(i64),
}

/// What a part of a statement says.
pub open spec fn part_view(part: SqlPart) -> PartView {
    match part {
        SqlPart::Text(text) => PartView::Text(text@),
        SqlPart::Identity(id) => PartView::Identity(id),
        SqlPart::Bound(text) => PartView::Bound(text@),
        SqlPart::Name(name) => PartView::Bound(name@),
        SqlPart::Number(number) => PartView::Number(number),
    }
}

/// What a statement says.
pub open spec fn statement(parts: Seq<SqlPart>) -> Seq<PartView> {
    Seq::new(parts.len(), |i: int| part_view(parts[i]))
}

/// The part that searches for a text.
pub open spec fn text_filter(mode: LogSearchMode, text: Seq<char>) -> Seq<PartView> {
    match mode {
        LogSearchMode::FullText => seq![
            PartView::Text(" AND search_vector @@ plainto_tsquery('simple', "@),
            PartView::Bound(text),
            PartView::Text(")"@),
        ],
        LogSearchMode::Literal => seq![
            PartView::Text(" AND normalized_text LIKE "@),
            PartView::Bound(pattern_of(text)),
            PartView::Text(" ESCAPE '\\'"@),
        ],
    }
}

/// The part that asks for an identity, where there is one to ask for.
pub open spec fn identity_filter(clause: Seq<char>, id: Option<u128>) -> Seq<PartView> {
    match id {
        None => Seq::empty(),
        Some(id) => seq![PartView::Text(clause), PartView::Identity(id)],
    }
}

/// The part that asks for a stream, where there is one to ask for.
pub open spec fn stream_filter(stream: Option<BuildLogStream>) -> Seq<PartView> {
    match stream {
        None => Seq::empty(),
        Some(stream) => seq![PartView::Text(" AND stream = "@), PartView::Bound(stream_name_text(stream))],
    }
}

/// The part that asks for a time, where there is one to ask for.
pub open spec fn time_filter(clause: Seq<char>, time: Option<i64>) -> Seq<PartView> {
    match time {
        None => Seq::empty(),
        Some(time) => seq![
            PartView::Text(clause),
            PartView::Number(time),
            PartView::Text("::double precision / 1000.0)"@),
        ],
    }
}

/// The part that goes on after a place, where there is one.
pub open spec fn cursor_filter(after: Option<LogSearchCursor>) -> Seq<PartView> {
    match after {
        None => Seq::empty(),
        Some(after) => seq![
            PartView::Text(" AND (occurred_at, chunk_id) < (to_timestamp("@),
            PartView::Number(after.occurred_at),
            PartView::Text("::double precision / 1000.0), "@),
            PartView::Identity(after.chunk_id),
            PartView::Text(")"@),
        ],
    }
}

/// The part that picks the project.
pub open spec fn project_filter(project_id: u128) -> Seq<PartView> {
    seq![
        PartView::Text(
            "SELECT chunk_id, build_id, attempt_id, job_id, stream, first_sequence, last_sequence, FLOOR(EXTRACT(EPOCH FROM occurred_at) * 1000)::BIGINT AS occurred_at_millis, normalized_text FROM log_search_documents WHERE project_id = "@,
        ),
        PartView::Identity(project_id),
    ]
}

/// The part that orders the results, newest first, and asks for one more than are given.
pub open spec fn ordering(limit: u16) -> Seq<PartView> {
    seq![
        PartView::Text(" ORDER BY occurred_at DESC, chunk_id DESC LIMIT "@),
        PartView::Number((limit + 1) as i64),
    ]
}

/// The statement of a search.
pub open spec fn search_statement(query: LogSearchQuery) -> Seq<PartView> {
    project_filter(query.project_id) + text_filter(query.mode, query.text@) + identity_filter(
        " AND build_id = "@,
        query.build_id,
    ) + identity_filter(" AND attempt_id = "@, query.attempt_id) + identity_filter(" AND job_id = "@, query.job_id)
        + stream_filter(query.stream) + time_filter(" AND occurred_at >= to_timestamp("@, query.occurred_from)
        + time_filter(" AND occurred_at <= to_timestamp("@, query.occurred_through) + cursor_filter(query.after)
        + ordering(query.limit)
}

fn push_part(parts: &mut Vec<SqlPart>, part: SqlPart)
    ensures
        statement(final(parts)@) == statement(old(parts)@).push(part_view(part)),
{
    parts.push(part);
    assert(statement(parts@) =~= statement(old(parts)@).push(part_view(part)));
}

fn push_text_filter(parts: &mut Vec<SqlPart>, mode: LogSearchMode, text: &String)
    ensures
        statement(final(parts)@) == statement(old(parts)@) + text_filter(mode, text@),
{
    match mode {
        LogSearchMode::FullText => {
            push_part(parts, SqlPart::Text(" AND search_vector @@ plainto_tsquery('simple', "));
            push_part(parts, SqlPart::Bound(text.clone()));
            push_part(parts, SqlPart::Text(")"));
        },
        LogSearchMode::Literal => {
            push_part(parts, SqlPart::Text(" AND normalized_text LIKE "));
            push_part(parts, SqlPart::Bound(literal_pattern(text.as_str())));
            push_part(parts, SqlPart::Text(" ESCAPE '\\'"));
        },
    }
    assert(statement(parts@) =~= statement(old(parts)@) + text_filter(mode, text@));
}

fn push_identity_filter(parts: &mut Vec<SqlPart>, clause: &'static str, id: Option<u128>)
    ensures
        statement(final(parts)@) == statement(old(parts)@) + identity_filter(clause@, id),
{
    if let Some(id) = id {
        push_part(parts, SqlPart::Text(clause));
        push_part(parts, SqlPart::Identity(id));
    }
    assert(statement(parts@) =~= statement(old(parts)@) + identity_filter(clause@, id));
}

fn push_stream_filter(parts: &mut Vec<SqlPart>, stream: Option<BuildLogStream>)
    ensures
        statement(final(parts)@) == statement(old(parts)@) + stream_filter(stream),
{
    if let Some(stream) = stream {
        push_part(parts, SqlPart::Text(" AND stream = "));
        push_part(parts, SqlPart::Name(stream_name(stream)));
    }
    assert(statement(parts@) =~= statement(old(parts)@) + stream_filter(stream));
}

fn push_time_filter(parts: &mut Vec<SqlPart>, clause: &'static str, time: Option<i64>)
    ensures
        statement(final(parts)@) == statement(old(parts)@) + time_filter(clause@, time),
{
    if let Some(time) = time {
        push_part(parts, SqlPart::Text(clause));
        push_part(parts, SqlPart::Number(time));
        push_part(parts, SqlPart::Text("::double precision / 1000.0)"));
    }
    assert(statement(parts@) =~= statement(old(parts)@) + time_filter(clause@, time));
}

fn push_cursor_filter(parts: &mut Vec<SqlPart>, after: Option<LogSearchCursor>)
    ensures
        statement(final(parts)@) == statement(old(parts)@) + cursor_filter(after),
{
    if let Some(after) = after {
        push_part(parts, SqlPart::Text(" AND (occurred_at, chunk_id) < (to_timestamp("));
        push_part(parts, SqlPart::Number(after.occurred_at));
        push_part(parts, SqlPart::Text("::double precision / 1000.0), "));
        push_part(parts, SqlPart::Identity(after.chunk_id));
        push_part(parts, SqlPart::Text(")"));
    }
    assert(statement(parts@) =~= statement(old(parts)@) + cursor_filter(after));
}

/// Builds the statement of a search.
pub fn search_sql(query: &LogSearchQuery) -> (parts: Vec<SqlPart>)
    ensures
        statement(parts@) == search_statement(*query),
{
    let mut parts: Vec<SqlPart> = Vec::new();
    push_part(
        &mut parts,
        SqlPart::Text(
            "SELECT chunk_id, build_id, attempt_id, job_id, stream, first_sequence, last_sequence, FLOOR(EXTRACT(EPOCH FROM occurred_at) * 1000)::BIGINT AS occurred_at_millis, normalized_text FROM log_search_documents WHERE project_id = ",
        ),
    );
    push_part(&mut parts, SqlPart::Identity(query.project_id));
    assert(statement(parts@) =~= project_filter(query.project_id));
    push_text_filter(&mut parts, query.mode, &query.text);
    push_identity_filter(&mut parts, " AND build_id = ", query.build_id);
    push_identity_filter(&mut parts, " AND attempt_id = ", query.attempt_id);
    push_identity_filter(&mut parts, " AND job_id = ", query.job_id);
    push_stream_filter(&mut parts, query.stream);
    push_time_filter(&mut parts, " AND occurred_at >= to_timestamp(", query.occurred_from);
    push_time_filter(&mut parts, " AND occurred_at <= to_timestamp(", query.occurred_through);
    push_cursor_filter(&mut parts, query.after);
    let ghost before = statement(parts@);
    push_part(&mut parts, SqlPart::Text(" ORDER BY occurred_at DESC, chunk_id DESC LIMIT "));
    push_part(&mut parts, SqlPart::Number(query.limit as i64 + 1));
    assert(statement(parts@) =~= before + ordering(query.limit));
    parts
}

/// Every search asks for one project only, and a search for part of the results asks for no more than one
/// result beyond them.
pub proof fn searches_stay_in_their_project(query: LogSearchQuery)
    ensures
        search_statement(query).subrange(0, 2) == project_filter(query.project_id),
        search_statement(query).last() == PartView::Number((query.limit + 1) as i64),
{
    assert(search_statement(query).subrange(0, 2) =~= project_filter(query.project_id));
}

/// A row that was found, with the snippet that is shown of its text.
pub struct FoundRow {
    /// The row.
    pub row: SearchRow,
    /// The snippet.
    pub snippet: String,
}

/// A part of a log that was found.
pub struct LogSearchHit {
    /// The chunk it comes from.
    pub chunk_id: u128,
    /// Its build.
    pub build_id: u128,
    /// Its attempt.
    pub attempt_id: u128,
    /// Its job.
    pub job_id: u128,
    /// Its stream.
    pub stream: BuildLogStream,
    /// First position of the job's log in it.
    pub first_sequence: u64,
    /// Last position of the job's log in it.
    pub last_sequence: u64,
    /// When it was recorded.
    pub occurred_at: i64,
    /// What is shown of its text.
    pub snippet: String,
}

/// Whether a hit is the one of a row, with its snippet.
pub open spec fn is_hit_of(hit: LogSearchHit, found: FoundRow) -> bool {
    &&& hit.chunk_id == found.row.chunk_id
    &&& hit.build_id == found.row.build_id
    &&& hit.attempt_id == found.row.attempt_id
    &&& hit.job_id == found.row.job_id
    &&& found.row.stream@ == stream_name_text(hit.stream)
    &&& hit.first_sequence == found.row.first_sequence
    &&& hit.last_sequence == found.row.last_sequence
    &&& hit.occurred_at == found.row.occurred_at_millis
    &&& hit.snippet@ == found.snippet@
}

impl FoundRow {
    /// Reads a hit of a project.
    pub fn into_hit(&self, project_id: u128) -> (result: Result<LogSearchHit, LogSearchError>)
        ensures
            match result {
                Ok(hit) => is_readable(self.row) && is_hit_of(hit, *self),
                Err(error) => error == LogSearchError::Unavailable && !is_readable(self.row),
            },
    {
        let document = self.row.into_document(project_id)?;
        Ok(
            LogSearchHit {
                chunk_id: document.chunk_id,
                build_id: document.build_id,
                attempt_id: document.attempt_id,
                job_id: document.job_id,
                stream: document.stream,
                first_sequence: document.first_sequence,
                last_sequence: document.last_sequence,
                occurred_at: document.occurred_at,
                snippet: self.snippet.clone(),
            },
        )
    }
}

/// Results of a search.
pub struct IndexedLogSearchPage {
    /// What was found.
    pub hits: Vec<LogSearchHit>,
    /// Where the next results start, where there are more.
    pub next_cursor: Option<LogSearchCursor>,
    /// Position through which the project is indexed.
    pub indexed_through: Option<u64>,
}

/// How many of the fetched rows are given.
pub open spec fn given(rows: Seq<FoundRow>, limit: u16) -> int {
    if rows.len() > limit {
        limit as int
    } else {
        rows.len() as int
    }
}

/// Whether the rows that are given can be read.
pub open spec fn are_readable(rows: Seq<FoundRow>, limit: u16) -> bool {
    forall|i: int| 0 <= i < given(rows, limit) ==> is_readable((#[trigger] rows[i]).row)
}

/// Whether results are those of fetched rows.
pub open spec fn is_page_of(page: IndexedLogSearchPage, rows: Seq<FoundRow>, limit: u16) -> bool {
    &&& page.hits@.len() == given(rows, limit)
    &&& forall|i: int| 0 <= i < page.hits@.len() ==> is_hit_of(#[trigger] page.hits@[i], rows[i])
    &&& page.next_cursor == if rows.len() > limit {
        Some(
            LogSearchCursor {
                occurred_at: rows[limit - 1].row.occurred_at_millis,
                chunk_id: rows[limit - 1].row.chunk_id,
            },
        )
    } else {
        None
    }
}

/// Reads the results of a search out of the rows that were fetched for it, each with its snippet. `validated` is the
/// verdict on the query by itself.
pub fn search(
    validated: Result<(), LogSearchInputError>,
    rows: &Vec<FoundRow>,
    project_id: u128,
    limit: u16,
    indexed_through: Option<i64>,
) -> (result: Result<IndexedLogSearchPage, LogSearchError>)
    requires
        validated is Ok ==> limit > 0,
    ensures
        match validated {
            Err(source) => result matches Err(error) && error == (LogSearchError::InvalidInput {
                operation: LogSearchOperation::Search,
                source,
            }),
            Ok(()) => match result {
                Ok(page) => {
                    &&& are_readable(rows@, limit)
                    &&& is_page_of(page, rows@, limit)
                    &&& read_position(indexed_through) == Ok::<Option<u64>, LogSearchError>(page.indexed_through)
                },
                Err(error) => {
                    &&& error == LogSearchError::Unavailable
                    &&& !are_readable(rows@, limit) || read_position(indexed_through) is Err
                },
            },
        },
{
    match validated {
        Ok(()) => {},
        Err(source) => {
            return Err(LogSearchError::InvalidInput { operation: LogSearchOperation::Search, source });
        },
    }
    let mut hits: Vec<LogSearchHit> = Vec::new();
    let mut has_more = false;
    let mut i: usize = 0;
    while i < rows.len() && !has_more
        invariant
            validated is Ok,
            i <= rows.len(),
            limit > 0,
            hits@.len() == i,
            i <= limit,
            has_more ==> i == limit && i < rows.len(),
            forall|j: int| 0 <= j < i ==> is_readable((#[trigger] rows@[j]).row),
            forall|j: int| 0 <= j < i ==> is_hit_of(#[trigger] hits@[j], rows@[j]),
        decreases rows.len() - i + if has_more {
            0int
        } else {
            1int
        },
    {
        if hits.len() == limit as usize {
            has_more = true;
        } else {
            let hit = match rows[i].into_hit(project_id) {
                Ok(hit) => hit,
                Err(error) => {
                    assert(!is_readable(rows@[i as int].row));
                    return Err(error);
                },
            };
            hits.push(hit);
            i += 1;
        }
    }
    let indexed_through: Option<u64> = read_indexed_through(indexed_through)?;
    let next_cursor: Option<LogSearchCursor> = if has_more {
        let last = &hits[hits.len() - 1];
        assert(is_hit_of(hits@[i - 1], rows@[i - 1]));
        Some(LogSearchCursor { occurred_at: last.occurred_at, chunk_id: last.chunk_id })
    } else {
        None
    };
    Ok(IndexedLogSearchPage { hits, next_cursor, indexed_through })
}

/// Whether a statement holds a clause: its parts stand there one behind the other.
#[verifier::opaque]
pub open spec fn holds_clause(whole: Seq<PartView>, clause: Seq<PartView>) -> bool {
    exists|before: Seq<PartView>, after: Seq<PartView>| whole == #[trigger] (before + clause + after)
}

proof fn last_clause_is_held(before: Seq<PartView>, clause: Seq<PartView>)
    ensures
        holds_clause(before + clause, clause),
{
    reveal(holds_clause);
    assert(before + clause =~= before + clause + Seq::<PartView>::empty());
}

proof fn clause_stays(whole: Seq<PartView>, clause: Seq<PartView>, more: Seq<PartView>)
    requires
        holds_clause(whole, clause),
    ensures
        holds_clause(whole + more, clause),
{
    reveal(holds_clause);
    let (before, after) = choose|before: Seq<PartView>, after: Seq<PartView>| whole == #[trigger] (before + clause + after);
    assert(whole + more =~= before + clause + (after + more));
}

/// A search is restricted by everything that its query asks for: the project, the text, and each of the build, the
/// attempt, the job, the stream, the times and the place to go on from that is named.
pub proof fn searches_are_restricted_as_asked(query: LogSearchQuery)
    ensures
        ({
            let whole = search_statement(query);
            &&& whole.len() >= 2 && whole[1] == PartView::Identity(query.project_id)
            &&& query.mode == LogSearchMode::FullText ==> holds_clause(
                whole,
                seq![
                    PartView::Text(" AND search_vector @@ plainto_tsquery('simple', "@),
                    PartView::Bound(query.text@),
                    PartView::Text(")"@),
                ],
            )
            &&& query.mode == LogSearchMode::Literal ==> holds_clause(
                whole,
                seq![
                    PartView::Text(" AND normalized_text LIKE "@),
                    PartView::Bound(pattern_of(query.text@)),
                    PartView::Text(" ESCAPE '\\'"@),
                ],
            )
            &&& query.build_id matches Some(id) ==> holds_clause(
                whole,
                seq![PartView::Text(" AND build_id = "@), PartView::Identity(id)],
            )
            &&& query.attempt_id matches Some(id) ==> holds_clause(
                whole,
                seq![PartView::Text(" AND attempt_id = "@), PartView::Identity(id)],
            )
            &&& query.job_id matches Some(id) ==> holds_clause(
                whole,
                seq![PartView::Text(" AND job_id = "@), PartView::Identity(id)],
            )
            &&& query.stream matches Some(stream) ==> holds_clause(
                whole,
                seq![PartView::Text(" AND stream = "@), PartView::Bound(stream_name_text(stream))],
            )
            &&& query.occurred_from matches Some(time) ==> holds_clause(
                whole,
                seq![
                    PartView::Text(" AND occurred_at >= to_timestamp("@),
                    PartView::Number(time),
                    PartView::Text("::double precision / 1000.0)"@),
                ],
            )
            &&& query.occurred_through matches Some(time) ==> holds_clause(
                whole,
                seq![
                    PartView::Text(" AND occurred_at <= to_timestamp("@),
                    PartView::Number(time),
                    PartView::Text("::double precision / 1000.0)"@),
                ],
            )
            &&& query.after matches Some(after) ==> holds_clause(
                whole,
                seq![
                    PartView::Text(" AND (occurred_at, chunk_id) < (to_timestamp("@),
                    PartView::Number(after.occurred_at),
                    PartView::Text("::double precision / 1000.0), "@),
                    PartView::Identity(after.chunk_id),
                    PartView::Text(")"@),
                ],
            )
            &&& holds_clause(
                whole,
                seq![
                    PartView::Text(" ORDER BY occurred_at DESC, chunk_id DESC LIMIT "@),
                    PartView::Number((query.limit + 1) as i64),
                ],
            )
        }),
{
    let text = text_filter(query.mode, query.text@);
    let build = identity_filter(" AND build_id = "@, query.build_id);
    let attempt = identity_filter(" AND attempt_id = "@, query.attempt_id);
    let job = identity_filter(" AND job_id = "@, query.job_id);
    let stream = stream_filter(query.stream);
    let from = time_filter(" AND occurred_at >= to_timestamp("@, query.occurred_from);
    let through = time_filter(" AND occurred_at <= to_timestamp("@, query.occurred_through);
    let cursor = cursor_filter(query.after);
    let order = ordering(query.limit);
    let to_project = project_filter(query.project_id);
    let to_text = to_project + text;
    last_clause_is_held(to_project, text);
    let to_build = to_text + build;
    last_clause_is_held(to_text, build);
    clause_stays(to_text, text, build);
    let to_attempt = to_build + attempt;
    last_clause_is_held(to_build, attempt);
    clause_stays(to_build, text, attempt);
    clause_stays(to_build, build, attempt);
    let to_job = to_attempt + job;
    last_clause_is_held(to_attempt, job);
    clause_stays(to_attempt, text, job);
    clause_stays(to_attempt, build, job);
    clause_stays(to_attempt, attempt, job);
    let to_stream = to_job + stream;
    last_clause_is_held(to_job, stream);
    clause_stays(to_job, text, stream);
    clause_stays(to_job, build, stream);
    clause_stays(to_job, attempt, stream);
    clause_stays(to_job, job, stream);
    let to_from = to_stream + from;
    last_clause_is_held(to_stream, from);
    clause_stays(to_stream, text, from);
    clause_stays(to_stream, build, from);
    clause_stays(to_stream, attempt, from);
    clause_stays(to_stream, job, from);
    clause_stays(to_stream, stream, from);
    let to_through = to_from + through;
    last_clause_is_held(to_from, through);
    clause_stays(to_from, text, through);
    clause_stays(to_from, build, through);
    clause_stays(to_from, attempt, through);
    clause_stays(to_from, job, through);
    clause_stays(to_from, stream, through);
    clause_stays(to_from, from, through);
    let to_cursor = to_through + cursor;
    last_clause_is_held(to_through, cursor);
    clause_stays(to_through, text, cursor);
    clause_stays(to_through, build, cursor);
    clause_stays(to_through, attempt, cursor);
    clause_stays(to_through, job, cursor);
    clause_stays(to_through, stream, cursor);
    clause_stays(to_through, from, cursor);
    clause_stays(to_through, through, cursor);
    let to_order = to_cursor + order;
    last_clause_is_held(to_cursor, order);
    clause_stays(to_cursor, text, order);
    clause_stays(to_cursor, build, order);
    clause_stays(to_cursor, attempt, order);
    clause_stays(to_cursor, job, order);
    clause_stays(to_cursor, stream, order);
    clause_stays(to_cursor, from, order);
    clause_stays(to_cursor, through, order);
    clause_stays(to_cursor, cursor, order);
    searches_stay_in_their_project(query);
    assert(search_statement(query)[1] == search_statement(query).subrange(0, 2)[1]);
}

/// A page shows the first rows that were found, as many as were asked for, each as it was found; there is another page
/// exactly where more were found, and it starts behind the last row shown.
pub proof fn pages_show_what_was_found(page: IndexedLogSearchPage, rows: Seq<FoundRow>, limit: u16, at: int)
    requires
        is_page_of(page, rows, limit),
        limit > 0,
    ensures
        page.hits@.len() <= limit && page.hits@.len() <= rows.len(),
        page.hits@.len() == limit || page.hits@.len() == rows.len(),
        0 <= at < page.hits@.len() ==> page.hits@[at].chunk_id == rows[at].row.chunk_id && page.hits@[at].build_id
            == rows[at].row.build_id && page.hits@[at].attempt_id == rows[at].row.attempt_id && page.hits@[at].job_id
            == rows[at].row.job_id && page.hits@[at].first_sequence == rows[at].row.first_sequence
            && page.hits@[at].last_sequence == rows[at].row.last_sequence && page.hits@[at].occurred_at
            == rows[at].row.occurred_at_millis && page.hits@[at].snippet@ == rows[at].snippet@ && rows[at].row.stream@
            == stream_name_text(page.hits@[at].stream),
        page.next_cursor is Some <==> rows.len() > limit,
        page.next_cursor matches Some(cursor) ==> cursor.chunk_id == rows[limit - 1].row.chunk_id && cursor.occurred_at
            == rows[limit - 1].row.occurred_at_millis,
{
}

/// A row of the index is shown only where it can be read, and only those rows that are shown have to be.
pub proof fn rows_that_are_shown_can_be_read(rows: Seq<FoundRow>, limit: u16)
    ensures
        are_readable(rows, limit) <==> forall|i: int|
            0 <= i < rows.len() && i < limit ==> is_readable((#[trigger] rows[i]).row),
{
}

/// Work on the index is done once. The same work again, of the same request, is a repetition, whether a document is
/// written for the first time or again; another request under the same work is a conflict.
pub proof fn index_work_is_done_once(
    recorded: AppliedWork,
    work_id: u128,
    operation: AppliedOperation,
    digest: Seq<u8>,
)
    ensures
        replayed(None, work_id, operation, digest) == Ok::<Option<LogSearchMutationDisposition>, LogSearchError>(None),
        ({
            let same = recorded.request_digest@ == digest && (if operation == AppliedOperation::Delete {
                recorded.operation@ == "delete_build"@
            } else {
                recorded.operation@ == "index"@ || recorded.operation@ == "rebuild"@
            });
            &&& !same ==> replayed(Some(recorded), work_id, operation, digest) == Err::<
                Option<LogSearchMutationDisposition>,
                LogSearchError,
            >(LogSearchError::WorkConflict { work_id })
            &&& same && (recorded.disposition@ == "applied"@ || recorded.disposition@ == "superseded"@) ==> replayed(
                Some(recorded),
                work_id,
                operation,
                digest,
            ) == Ok::<Option<LogSearchMutationDisposition>, LogSearchError>(
                Some(LogSearchMutationDisposition::Replayed),
            )
        }),
{
}

/// A document of a build that is not deleted is written, exactly where it is new or the same one is there already;
/// another one under its chunk is a conflict. A document of a deleted build is passed over, whatever is there.
pub proof fn documents_are_written_unless_their_build_is_deleted(
    request: WriteLogSearchDocument,
    operation: AppliedOperation,
    digest: Seq<u8>,
    met: IndexSurroundings,
)
    requires
        met.recorded is None,
        request.position <= i64::MAX,
        request.document.first_sequence <= i64::MAX,
        request.document.last_sequence <= i64::MAX,
        met.existing matches Some(row) ==> is_readable(row),
    ensures
        met.tombstoned ==> application(Ok(()), request, operation, digest, met) == Ok::<
            LogSearchMutationDisposition,
            LogSearchError,
        >(LogSearchMutationDisposition::Superseded),
        !met.tombstoned && met.inserted_rows == 1 ==> application(Ok(()), request, operation, digest, met) == Ok::<
            LogSearchMutationDisposition,
            LogSearchError,
        >(LogSearchMutationDisposition::Applied),
        !met.tombstoned && met.inserted_rows != 1 && met.existing is Some ==> application(
            Ok(()),
            request,
            operation,
            digest,
            met,
        ) == ({
            let row = met.existing->Some_0;
            let document = request.document;
            if row.chunk_id == document.chunk_id && row.build_id == document.build_id && row.attempt_id
                == document.attempt_id && row.job_id == document.job_id && row.stream@ == stream_name_text(
                document.stream,
            ) && row.first_sequence == document.first_sequence && row.last_sequence == document.last_sequence
                && row.occurred_at_millis == document.occurred_at && row.normalized_text@ == document.redacted_text@ {
                Ok::<LogSearchMutationDisposition, LogSearchError>(LogSearchMutationDisposition::Applied)
            } else {
                Err(LogSearchError::DocumentConflict { chunk_id: document.chunk_id })
            }
        }),
        forall|source: LogSearchInputError| #[trigger]
            application(Err(source), request, operation, digest, met) == Err::<
                LogSearchMutationDisposition,
                LogSearchError,
            >(
                LogSearchError::InvalidInput {
                    operation: match operation {
                        AppliedOperation::Index => LogSearchOperation::Index,
                        AppliedOperation::Delete => LogSearchOperation::Delete,
                        AppliedOperation::Rebuild => LogSearchOperation::Rebuild,
                    },
                    source,
                },
            ),
{
}

/// The deletion of a build is carried out unless it was before; what is recorded of work is what was done, and
/// repeated work is not recorded again.
pub proof fn done_work_is_recorded(
    applied: AppliedWrite,
    disposition: LogSearchMutationDisposition,
    work_id: u128,
    project_id: u128,
    position: u64,
    operation: AppliedOperation,
    digest: Seq<u8>,
)
    ensures
        position <= i64::MAX ==> deletion(None, work_id, position, digest) == Ok::<
            LogSearchMutationDisposition,
            LogSearchError,
        >(LogSearchMutationDisposition::Applied),
        is_applied(applied, disposition, work_id, project_id, position, operation, digest) ==> {
            &&& applied.disposition == disposition
            &&& applied.entry is None <==> disposition == LogSearchMutationDisposition::Replayed
            &&& applied.entry matches Some(entry) ==> entry.work_id == work_id && entry.project_id == project_id
                && entry.position == position && entry.request_digest@ == digest && entry.operation@ == (match operation {
                AppliedOperation::Index => "index"@,
                AppliedOperation::Delete => "delete_build"@,
                AppliedOperation::Rebuild => "rebuild"@,
            }) && entry.disposition == (if disposition == LogSearchMutationDisposition::Applied {
                "applied"
            } else {
                "superseded"
            })
        },
{
}

/// A search sees what was written: a document of a build that was not deleted is in the index from when it is
/// written, until its build is deleted or the index is built anew; and deleting a build leaves the others alone.
pub proof fn written_documents_are_found(index: ProjectIndex, chunk_id: u128, build_id: u128, other: u128)
    requires
        !index.tombstones.contains(build_id),
        !index.documents.contains_key(chunk_id),
        other != build_id,
    ensures
        ({
            let written = after_step(index, IndexStep::Write { chunk_id, build_id });
            let later = after_step(written, IndexStep::Delete { build_id: other });
            &&& written.documents.contains_key(chunk_id) && written.documents[chunk_id] == build_id
            &&& later.documents.contains_key(chunk_id) && later.documents[chunk_id] == build_id
        }),
{
}

/// How far the index is known to be complete is read as it is on record, and unknown where nothing is.
pub proof fn progress_is_read_as_recorded(position: i64)
    ensures
        read_position(None) == Ok::<Option<u64>, LogSearchError>(None),
        position > 0 ==> read_position(Some(position)) == Ok::<Option<u64>, LogSearchError>(Some(position as u64)),
        position <= 0 ==> read_position(Some(position)) == Err::<Option<u64>, LogSearchError>(
            LogSearchError::Unavailable,
        ),
{
}

/// Two documents are the same exactly where they agree on everything: the chunk, where it comes from, its place in the
/// log and its text.
pub proof fn documents_are_told_apart(a: LogSearchDocument, b: LogSearchDocument)
    ensures
        same_document_as(a, b) <==> a.chunk_id == b.chunk_id && a.project_id == b.project_id && a.build_id == b.build_id
            && a.attempt_id == b.attempt_id && a.job_id == b.job_id && a.stream == b.stream && a.first_sequence
            == b.first_sequence && a.last_sequence == b.last_sequence && a.occurred_at == b.occurred_at
            && a.redacted_text@ == b.redacted_text@,
{
}

/// A number is written with its most significant byte first, and can be read back.
pub proof fn numbers_are_written_from_their_head(value: nat, length: nat)
    requires
        value < byte_bound(length),
    ensures
        crate::identity_text::big_endian(big_endian_bytes(value, length)) == value,
    decreases length,
{
    if length > 0 {
        let head = big_endian_bytes(value / 256, (length - 1) as nat);
        let last = (value % 256) as u8;
        assert(value / 256 < byte_bound((length - 1) as nat)) by (nonlinear_arith)
            requires
                value < 256 * byte_bound((length - 1) as nat),
        ;
        numbers_are_written_from_their_head(value / 256, (length - 1) as nat);
        assert(head.push(last).drop_last() =~= head);
        assert(head.push(last).last() == last);
    }
}

/// A document is read exactly from a row whose identities are set, whose stream is known and whose numbers are not
/// negative.
pub proof fn sound_documents_are_read(row: SearchRow)
    ensures
        is_readable(row) <==> row.chunk_id != 0 && row.build_id != 0 && row.attempt_id != 0 && row.job_id != 0 && (
        row.stream@ == "stdout"@ || row.stream@ == "stderr"@) && row.first_sequence >= 0 && row.last_sequence >= 0
            && row.occurred_at_millis >= 0,
{
    assert(stream_name_text(BuildLogStream::Stdout) == "stdout"@);
    assert(stream_name_text(BuildLogStream::Stderr) == "stderr"@);
}

/// A document is found in the project that was searched, with the text and the place that were stored.
pub proof fn documents_are_found_as_stored(document: LogSearchDocument, row: SearchRow, project_id: u128)
    requires
        is_document_of(document, row, project_id),
    ensures
        document.project_id == project_id,
        document.chunk_id == row.chunk_id && document.build_id == row.build_id && document.attempt_id == row.attempt_id
            && document.job_id == row.job_id,
        document.first_sequence == row.first_sequence && document.last_sequence == row.last_sequence,
        document.occurred_at == row.occurred_at_millis && document.redacted_text@ == row.normalized_text@,
        document.stream == BuildLogStream::Stdout ==> row.stream@ == "stdout"@,
        document.stream == BuildLogStream::Stderr ==> row.stream@ == "stderr"@,
{
}

/// A document of a build that was forgotten is not looked at: its numbers may be anything. One that is kept must fit
/// its columns.
pub proof fn forgotten_documents_are_not_looked_at(
    request: WriteLogSearchDocument,
    operation: AppliedOperation,
    digest: Seq<u8>,
    met: IndexSurroundings,
)
    requires
        replayed(met.recorded, request.work_id, operation, digest) == Ok::<
            Option<LogSearchMutationDisposition>,
            LogSearchError,
        >(None),
    ensures
        met.tombstoned && request.position <= i64::MAX ==> application(Ok(()), request, operation, digest, met) is Ok,
        !met.tombstoned && (request.document.first_sequence > i64::MAX || request.document.last_sequence > i64::MAX)
            ==> application(Ok(()), request, operation, digest, met) == Err::<LogSearchMutationDisposition, LogSearchError>(
            LogSearchError::Unavailable,
        ),
{
}

/// What the index holds and cannot be read is reported as unavailable: a piece of work in a state that is not known, a
/// document that is not sound or not there although it could not be stored, a position below one, or a position that
/// does not fit.
pub proof fn damaged_indexes_are_unavailable(
    recorded: AppliedWork,
    work_id: u128,
    operation: AppliedOperation,
    inserted_rows: u64,
    row: SearchRow,
    document: LogSearchDocument,
    position: u64,
    stored: i64,
    digest: Seq<u8>,
)
    ensures
        repeats(operation, recorded.operation@) && recorded.disposition@ != "applied"@ && recorded.disposition@
            != "superseded"@ ==> replayed(Some(recorded), work_id, operation, recorded.request_digest@) == Err::<
            Option<LogSearchMutationDisposition>,
            LogSearchError,
        >(LogSearchError::Unavailable),
        inserted_rows != 1 ==> persistence(inserted_rows, None, document) == Err::<(), LogSearchError>(
            LogSearchError::Unavailable,
        ),
        inserted_rows != 1 && !is_readable(row) ==> persistence(inserted_rows, Some(row), document) == Err::<
            (),
            LogSearchError,
        >(LogSearchError::Unavailable),
        position > i64::MAX ==> deletion(None, work_id, position, digest) == Err::<
            LogSearchMutationDisposition,
            LogSearchError,
        >(LogSearchError::Unavailable),
        stored <= 0 ==> read_position(Some(stored)) == Err::<Option<u64>, LogSearchError>(LogSearchError::Unavailable),
        stored > 0 ==> read_position(Some(stored)) == Ok::<Option<u64>, LogSearchError>(Some(stored as u64)),
        read_position(None) == Ok::<Option<u64>, LogSearchError>(None),
{
}

/// A search looks for its text as it was written: a character with a meaning of its own is marked, and no other.
pub proof fn characters_are_looked_for_as_written(character: char)
    ensures
        escaped_character(character) == (if character == '\\' || character == '%' || character == '_' {
            seq!['\\', character]
        } else {
            seq![character]
        }),
{
}

} // verus!
