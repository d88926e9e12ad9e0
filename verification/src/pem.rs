//! PEM text: certificate chains and private keys.

use base64::Engine;
use vstd::prelude::*;

use crate::error::ServerError;
use crate::text::{chars_of, join2, texts};

verus! {

/// What standard padded base64 makes of `text`: the bytes, or the decoder's words
/// on why there are none.
pub uninterp spec fn base64_decoded(text: Seq<u8>) -> Result<Seq<u8>, Seq<char>>;

/// Calls `decode` of `base64::engine::general_purpose::STANDARD`. Claims that the
/// bytes, or the text of the error, are a function of the input alone.
#[verifier::external_body]
fn decode_base64(text: &[u8]) -> (r: Result<Vec<u8>, String>)
    ensures
        match base64_decoded(text@) {
            Ok(bytes) => r matches Ok(v) && v@ == bytes,
            Err(words) => r matches Err(e) && e@ == words,
        },
{
    match base64::engine::general_purpose::STANDARD.decode(text) {
        Ok(bytes) => Ok(bytes),
        Err(e) => Err(e.to_string()),
    }
}

/// Whether `c` has the Unicode property White_Space.
pub open spec fn white_space(c: char) -> bool {
    ||| '\u{9}' <= c <= '\u{d}'
    ||| c == ' ' || c == '\u{85}' || c == '\u{a0}' || c == '\u{1680}'
    ||| '\u{2000}' <= c <= '\u{200a}'
    ||| c == '\u{2028}' || c == '\u{2029}' || c == '\u{202f}' || c == '\u{205f}'
    ||| c == '\u{3000}'
}

fn is_white_space(c: char) -> (r: bool)
    ensures
        r == white_space(c),
{
    ('\u{9}' <= c && c <= '\u{d}') || c == ' ' || c == '\u{85}' || c == '\u{a0}' || c == '\u{1680}'
        || ('\u{2000}' <= c && c <= '\u{200a}') || c == '\u{2028}' || c == '\u{2029}' || c
        == '\u{202f}' || c == '\u{205f}' || c == '\u{3000}'
}

/// The number of characters before the first line feed.
pub open spec fn line_len(s: Seq<char>) -> nat
    decreases s.len(),
{
    if s.len() == 0 || s[0] == '\n' {
        0
    } else {
        1 + line_len(s.drop_first())
    }
}

/// The lines of `s`: each ends at a line feed, with or without a carriage return
/// before it, or at the end of the text. An empty last line does not count.
pub open spec fn lines_of(s: Seq<char>) -> Seq<Seq<char>>
    decreases s.len(),
{
    let n = line_len(s) as int;
    if s.len() == 0 || n > s.len() {
        Seq::empty()
    } else if n == s.len() {
        seq![s]
    } else {
        let line = if n > 0 && s[n - 1] == '\r' {
            s.take(n - 1)
        } else {
            s.take(n)
        };
        seq![line] + lines_of(s.skip(n + 1))
    }
}

/// `s` from its first character that is not white space.
pub open spec fn trim_start(s: Seq<char>) -> Seq<char>
    decreases s.len(),
{
    if s.len() > 0 && white_space(s[0]) {
        trim_start(s.drop_first())
    } else {
        s
    }
}

/// `s` up to its last character that is not white space.
pub open spec fn trim_end(s: Seq<char>) -> Seq<char>
    decreases s.len(),
{
    if s.len() > 0 && white_space(s.last()) {
        trim_end(s.drop_last())
    } else {
        s
    }
}

/// `s` without white space at either end.
pub open spec fn trim(s: Seq<char>) -> Seq<char> {
    trim_end(trim_start(s))
}

/// Whether `part` occurs somewhere in `s`.
pub open spec fn has_part(s: Seq<char>, part: Seq<char>) -> bool {
    exists|i: int|
        0 <= i && i + part.len() <= s.len() && #[trigger] s.subrange(i, i + part.len()) == part
}

proof fn line_len_bound(s: Seq<char>)
    ensures
        line_len(s) <= s.len(),
        forall|i: int| 0 <= i < line_len(s) ==> s[i] != '\n',
        line_len(s) < s.len() ==> s[line_len(s) as int] == '\n',
    decreases s.len(),
{
    if s.len() > 0 && s[0] != '\n' {
        let rest = s.drop_first();
        line_len_bound(rest);
        assert forall|i: int| 0 <= i < line_len(s) implies s[i] != '\n' by {
            if i > 0 {
                assert(s[i] == rest[i - 1]);
            }
        }
        if line_len(s) < s.len() {
            assert(s[line_len(s) as int] == rest[line_len(rest) as int]);
        }
    }
}

/// The first line feed is where the line ends.
pub proof fn line_len_is(s: Seq<char>, n: int)
    requires
        0 <= n <= s.len(),
        forall|i: int| 0 <= i < n ==> s[i] != '\n',
        n < s.len() ==> s[n] == '\n',
    ensures
        line_len(s) == n,
{
    line_len_bound(s);
    let k = line_len(s) as int;
    if k < n {
        assert(s[k] == '\n');
    }
    if n < k {
        assert(s[n] == '\n');
    }
}

/// Splits `s` into its lines.
pub fn lines(s: &str) -> (out: Vec<String>)
    ensures
        texts(out@) == lines_of(s@),
{
    let chars = chars_of(s);
    let len = chars.len();
    let mut out: Vec<String> = Vec::new();
    let mut start: usize = 0;
    proof {
        assert(s@.skip(0) =~= s@);
        assert(texts(out@) + lines_of(s@.skip(0)) =~= lines_of(s@));
    }
    while start < len
        invariant
            chars@ == s@,
            len == chars@.len(),
            start <= len,
            texts(out@) + lines_of(s@.skip(start as int)) == lines_of(s@),
        decreases len - start,
    {
        let ghost rest = s@.skip(start as int);
        let ghost before = out@;
        let mut end: usize = start;
        while end < len && chars[end] != '\n'
            invariant
                chars@ == s@,
                len == chars@.len(),
                start <= end <= len,
                forall|i: int| start <= i < end ==> s@[i] != '\n',
            decreases len - end,
        {
            end = end + 1;
        }
        proof {
            line_len_is(rest, end - start);
        }
        if end == len {
            out.push(String::from_str(s.substring_char(start, end)));
            proof {
                assert(s@.subrange(start as int, end as int) =~= rest);
                assert(texts(out@) =~= texts(before).push(rest));
                assert(s@.skip(len as int) =~= Seq::<char>::empty());
                assert(lines_of(s@.skip(len as int)) =~= Seq::<Seq<char>>::empty());
                assert(texts(before) + lines_of(rest) =~= texts(before).push(rest));
            }
            start = len;
        } else {
            let stop: usize = if end > start && chars[end - 1] == '\r' {
                end - 1
            } else {
                end
            };
            out.push(String::from_str(s.substring_char(start, stop)));
            proof {
                let line = s@.subrange(start as int, stop as int);
                assert(line =~= rest.take(stop - start));
                assert(rest.skip(end - start + 1) =~= s@.skip(end + 1));
                assert(texts(out@) =~= texts(before).push(line));
                assert(lines_of(rest) == seq![line] + lines_of(s@.skip(end + 1)));
                assert(texts(before) + (seq![line] + lines_of(s@.skip(end + 1))) =~= texts(
                    before,
                ).push(line) + lines_of(s@.skip(end + 1)));
            }
            start = end + 1;
        }
    }
    proof {
        assert(s@.skip(start as int) =~= Seq::<char>::empty());
        assert(lines_of(s@.skip(start as int)) =~= Seq::<Seq<char>>::empty());
        assert(texts(out@) + Seq::<Seq<char>>::empty() =~= texts(out@));
    }
    out
}

/// `s` without white space at either end.
fn trimmed<'a>(s: &'a str) -> (r: &'a str)
    ensures
        r@ == trim(s@),
{
    let chars = chars_of(s);
    let mut lo: usize = 0;
    proof {
        assert(s@.skip(0) =~= s@);
    }
    while lo < chars.len() && is_white_space(chars[lo])
        invariant
            chars@ == s@,
            lo <= chars@.len(),
            trim_start(s@.skip(lo as int)) == trim_start(s@),
        decreases chars@.len() - lo,
    {
        proof {
            assert(s@.skip(lo as int).drop_first() =~= s@.skip(lo + 1));
        }
        lo = lo + 1;
    }
    let mut hi: usize = chars.len();
    proof {
        assert(s@.subrange(lo as int, hi as int) =~= s@.skip(lo as int));
    }
    while hi > lo && is_white_space(chars[hi - 1])
        invariant
            chars@ == s@,
            lo <= hi <= chars@.len(),
            trim_end(s@.subrange(lo as int, hi as int)) == trim(s@),
        decreases hi,
    {
        proof {
            assert(s@.subrange(lo as int, hi as int).drop_last() =~= s@.subrange(
                lo as int,
                hi - 1,
            ));
        }
        hi = hi - 1;
    }
    s.substring_char(lo, hi)
}

/// Whether the characters of `part` stand in `s` from position `at` on.
fn stands_at(s: &Vec<char>, at: usize, part: &Vec<char>) -> (r: bool)
    requires
        at + part@.len() <= s@.len(),
    ensures
        r == (s@.subrange(at as int, at + part@.len()) == part@),
{
    let len = s.len();
    for k in 0..part.len()
        invariant
            len == s@.len(),
            at + part@.len() <= s@.len(),
            forall|j: int| 0 <= j < k ==> s@[at + j] == part@[j],
    {
        if s[at + k] != part[k] {
            assert(s@.subrange(at as int, at + part@.len())[k as int] != part@[k as int]);
            return false;
        }
    }
    assert(s@.subrange(at as int, at + part@.len()) =~= part@);
    true
}

/// Whether `s` starts with `prefix`.
fn starts_with(s: &str, prefix: &str) -> (r: bool)
    ensures
        r == prefix@.is_prefix_of(s@),
{
    let chars = chars_of(s);
    let part = chars_of(prefix);
    if part.len() > chars.len() {
        return false;
    }
    stands_at(&chars, 0, &part)
}

/// Whether `part` occurs somewhere in `s`.
fn contains_part(s: &str, part: &str) -> (r: bool)
    ensures
        r == has_part(s@, part@),
{
    let chars = chars_of(s);
    let wanted = chars_of(part);
    if wanted.len() > chars.len() {
        return false;
    }
    let last: usize = chars.len() - wanted.len();
    let mut at: usize = 0;
    loop
        invariant
            chars@ == s@,
            wanted@ == part@,
            last + wanted@.len() == chars@.len(),
            at <= last,
            forall|i: int|
                0 <= i < at ==> #[trigger] s@.subrange(i, i + part@.len()) != part@,
        decreases last - at,
    {
        if stands_at(&chars, at, &wanted) {
            return true;
        }
        if at == last {
            return false;
        }
        at = at + 1;
    }
}

/// A line that opens a certificate block.
pub open spec fn opens_certificate(line: Seq<char>) -> bool {
    "-----BEGIN CERTIFICATE-----"@.is_prefix_of(line)
}

/// A line that closes a certificate block.
pub open spec fn closes_certificate(line: Seq<char>) -> bool {
    "-----END CERTIFICATE-----"@.is_prefix_of(line)
}

/// What has been read of a chain: whether a block is open, its text so far, and
/// the texts of the closed blocks.
pub struct ChainState {
    pub inside: bool,
    pub b64: Seq<char>,
    pub blocks: Seq<Seq<char>>,
}

/// Reading one line more. The text of a block is that of its lines, trimmed; a
/// closing line yields the text of the block opened last.
pub open spec fn chain_line(state: ChainState, line: Seq<char>) -> ChainState {
    if opens_certificate(line) {
        ChainState { inside: true, b64: Seq::empty(), ..state }
    } else if closes_certificate(line) {
        ChainState { inside: false, blocks: state.blocks.push(state.b64), ..state }
    } else if state.inside {
        ChainState { b64: state.b64 + trim(line), ..state }
    } else {
        state
    }
}

/// Reading `lines` from the start.
pub open spec fn chain_read(lines: Seq<Seq<char>>) -> ChainState
    decreases lines.len(),
{
    if lines.len() == 0 {
        ChainState { inside: false, b64: Seq::empty(), blocks: Seq::empty() }
    } else {
        chain_line(chain_read(lines.drop_last()), lines.last())
    }
}

/// The texts of the certificate blocks of `pem`, in order.
pub open spec fn blocks_of(pem: Seq<char>) -> Seq<Seq<char>> {
    chain_read(lines_of(pem)).blocks
}

/// Collects the texts of the certificate blocks of `pem`, in order.
pub fn certificate_blocks(pem: &str) -> (blocks: Vec<String>)
    ensures
        texts(blocks@) == blocks_of(pem@),
{
    let all = lines(pem);
    let ghost seen = texts(all@);
    let mut blocks: Vec<String> = Vec::new();
    let mut inside = false;
    let mut b64 = String::new();
    proof {
        assert(texts(blocks@) =~= Seq::<Seq<char>>::empty());
        assert(seen.take(0) =~= Seq::<Seq<char>>::empty());
    }
    for i in 0..all.len()
        invariant
            seen == texts(all@),
            seen == lines_of(pem@),
            chain_read(seen.take(i as int)) == (ChainState {
                inside,
                b64: b64@,
                blocks: texts(blocks@),
            }),
    {
        let ghost before = blocks@;
        let line = all[i].as_str();
        proof {
            assert(seen.take(i + 1).drop_last() =~= seen.take(i as int));
            assert(seen.take(i + 1).last() == line@);
        }
        if starts_with(line, "-----BEGIN CERTIFICATE-----") {
            inside = true;
            b64 = String::new();
        } else if starts_with(line, "-----END CERTIFICATE-----") {
            inside = false;
            blocks.push(b64.clone());
            proof {
                assert(texts(blocks@) =~= texts(before).push(b64@));
            }
        } else if inside {
            b64.append(trimmed(line));
        }
    }
    proof {
        assert(seen.take(seen.len() as int) =~= seen);
    }
    blocks
}

/// What a decoder made of one block: its bytes, or words on why there are none.
pub type Decoded = Result<Vec<u8>, String>;

/// What base64 makes of the UTF-8 bytes of `text`.
pub open spec fn text_decoded(text: Seq<char>) -> Result<Seq<u8>, Seq<char>> {
    base64_decoded(vstd::utf8::encode_utf8(text))
}

/// Whether `d` tells of `decoded`.
pub open spec fn tells(d: Decoded, decoded: Result<Seq<u8>, Seq<char>>) -> bool {
    match decoded {
        Ok(bytes) => d matches Ok(v) && v@ == bytes,
        Err(words) => d matches Err(e) && e@ == words,
    }
}

/// The chain that decoded blocks make up. The first block that did not decode, or
/// the lack of any block, spoils it.
pub open spec fn chain_of(
    decoded: Seq<Result<Seq<u8>, Seq<char>>>,
    r: Result<Vec<Vec<u8>>, ServerError>,
) -> bool {
    if decoded.len() == 0 {
        r matches Err(e) && e.is_keys("no CERTIFICATE blocks in chain"@)
    } else if exists|i: int| 0 <= i < decoded.len() && #[trigger] decoded[i] is Err {
        let first = choose|i: int|
            0 <= i < decoded.len() && #[trigger] decoded[i] is Err && forall|j: int|
                0 <= j < i ==> #[trigger] decoded[j] is Ok;
        r matches Err(e) && e.is_keys("bad cert base64: "@ + decoded[first]->Err_0)
    } else {
        &&& r matches Ok(chain)
        &&& chain@.len() == decoded.len()
        &&& forall|i: int| 0 <= i < decoded.len() ==> (#[trigger] chain@[i])@ == decoded[i]->Ok_0
    }
}

/// The views of decoded blocks.
pub open spec fn decoded_views(decoded: Seq<Decoded>) -> Seq<Result<Seq<u8>, Seq<char>>> {
    decoded.map_values(
        |d: Decoded|
            match d {
                Ok(v) => Ok::<Seq<u8>, Seq<char>>(v@),
                Err(e) => Err::<Seq<u8>, Seq<char>>(e@),
            },
    )
}

/// Puts decoded blocks together to a chain.
pub fn chain_from(decoded: Vec<Decoded>) -> (r: Result<Vec<Vec<u8>>, ServerError>)
    ensures
        chain_of(decoded_views(decoded@), r),
{
    let ghost views = decoded_views(decoded@);
    let ghost given = decoded@;
    if decoded.len() == 0 {
        return Err(ServerError::Keys(String::from_str("no CERTIFICATE blocks in chain")));
    }
    let mut chain: Vec<Vec<u8>> = Vec::new();
    for i in 0..decoded.len()
        invariant
            given == decoded@,
            views == decoded_views(decoded@),
            decoded@.len() > 0,
            chain@.len() == i,
            forall|j: int|
                0 <= j < i ==> #[trigger] views[j] is Ok && chain@[j]@ == views[j]->Ok_0,
    {
        match &decoded[i] {
            Ok(bytes) => {
                let copy: Vec<u8> = copied(bytes);
                chain.push(copy);
            },
            Err(words) => {
                proof {
                    assert(views[i as int] is Err);
                    let first = choose|k: int|
                        0 <= k < views.len() && #[trigger] views[k] is Err && forall|j: int|
                            0 <= j < k ==> #[trigger] views[j] is Ok;
                    assert(first == i) by {
                        if first < i {
                            assert(views[first] is Ok);
                        }
                        if i < first {
                            assert(views[i as int] is Ok);
                        }
                    }
                }
                return Err(ServerError::Keys(join2("bad cert base64: ", words.as_str())));
            },
        }
    }
    Ok(chain)
}

fn copied(bytes: &Vec<u8>) -> (r: Vec<u8>)
    ensures
        r@ == bytes@,
{
    let mut r: Vec<u8> = Vec::new();
    for i in 0..bytes.len()
        invariant
            r@ == bytes@.take(i as int),
    {
        r.push(bytes[i]);
    }
    assert(bytes@.take(bytes@.len() as int) =~= bytes@);
    r
}

/// What base64 makes of each of `blocks`.
pub open spec fn blocks_decoded(blocks: Seq<Seq<char>>) -> Seq<Result<Seq<u8>, Seq<char>>> {
    blocks.map_values(|text: Seq<char>| text_decoded(text))
}

/// Reads the DER certificates out of a PEM chain, in order.
pub fn parse_cert_chain(pem: &str) -> (r: Result<Vec<Vec<u8>>, ServerError>)
    ensures
        chain_of(blocks_decoded(blocks_of(pem@)), r),
{
    let blocks = certificate_blocks(pem);
    let ghost named = blocks_decoded(blocks_of(pem@));
    let mut decoded: Vec<Decoded> = Vec::new();
    for i in 0..blocks.len()
        invariant
            texts(blocks@) == blocks_of(pem@),
            named == blocks_decoded(blocks_of(pem@)),
            decoded@.len() == i,
            forall|j: int| 0 <= j < i ==> tells(#[trigger] decoded@[j], named[j]),
    {
        let d = decode_base64(blocks[i].as_str().as_bytes());
        assert(texts(blocks@)[i as int] == blocks@[i as int]@);
        decoded.push(d);
    }
    proof {
        assert(texts(blocks@).len() == blocks@.len());
        assert forall|i: int| 0 <= i < named.len() implies decoded_views(decoded@)[i] == named[i] by {
            assert(tells(decoded@[i], named[i]));
        }
        assert(decoded_views(decoded@) =~= named);
    }
    chain_from(decoded)
}

/// A line that opens a private-key block of any kind.
pub open spec fn opens_key(line: Seq<char>) -> bool {
    has_part(line, "BEGIN"@) && has_part(line, "PRIVATE KEY"@)
}

/// A line that closes a private-key block of any kind.
pub open spec fn closes_key(line: Seq<char>) -> bool {
    has_part(line, "END"@) && has_part(line, "PRIVATE KEY"@)
}

/// The text of the first private-key block that `lines` close, where `inside` and
/// `b64` tell what was read before. `None` if no block is closed.
pub open spec fn key_text(lines: Seq<Seq<char>>, inside: bool, b64: Seq<char>) -> Option<Seq<char>>
    decreases lines.len(),
{
    if lines.len() == 0 {
        None
    } else if opens_key(lines[0]) {
        key_text(lines.drop_first(), true, Seq::empty())
    } else if closes_key(lines[0]) {
        Some(b64)
    } else if inside {
        key_text(lines.drop_first(), inside, b64 + trim(lines[0]))
    } else {
        key_text(lines.drop_first(), inside, b64)
    }
}

/// The text of the first private-key block of `pem` that is closed.
pub fn key_block(pem: &str) -> (r: Option<String>)
    ensures
        match key_text(lines_of(pem@), false, Seq::empty()) {
            Some(text) => r matches Some(t) && t@ == text,
            None => r is None,
        },
{
    let all = lines(pem);
    let ghost seen = texts(all@);
    let mut inside = false;
    let mut b64 = String::new();
    proof {
        assert(seen.skip(0) =~= seen);
    }
    for i in 0..all.len()
        invariant
            seen == texts(all@),
            seen == lines_of(pem@),
            key_text(seen.skip(i as int), inside, b64@) == key_text(seen, false, Seq::empty()),
    {
        let line = all[i].as_str();
        proof {
            assert(seen.skip(i as int)[0] == line@);
            assert(seen.skip(i as int).drop_first() =~= seen.skip(i + 1));
        }
        if contains_part(line, "BEGIN") && contains_part(line, "PRIVATE KEY") {
            inside = true;
            b64 = String::new();
        } else if contains_part(line, "END") && contains_part(line, "PRIVATE KEY") {
            return Some(b64);
        } else if inside {
            b64.append(trimmed(line));
        }
    }
    proof {
        assert(seen.skip(seen.len() as int) =~= Seq::<Seq<char>>::empty());
    }
    None
}

/// The key that a decoded block holds. `None` stands for no block at all.
pub open spec fn key_of(
    decoded: Option<Result<Seq<u8>, Seq<char>>>,
    r: Result<Vec<u8>, ServerError>,
) -> bool {
    match decoded {
        None => r matches Err(e) && e.is_keys("no PRIVATE KEY block in cached key"@),
        Some(Ok(bytes)) => r matches Ok(der) && der@ == bytes,
        Some(Err(words)) => r matches Err(e) && e.is_keys("bad key base64: "@ + words),
    }
}

/// The key that a decoded block holds. `None` stands for no block at all.
pub fn key_from(decoded: Option<Decoded>) -> (r: Result<Vec<u8>, ServerError>)
    ensures
        match decoded {
            None => key_of(None, r),
            Some(Ok(v)) => key_of(Some(Ok(v@)), r),
            Some(Err(e)) => key_of(Some(Err(e@)), r),
        },
{
    match decoded {
        None => Err(ServerError::Keys(String::from_str("no PRIVATE KEY block in cached key"))),
        Some(Ok(bytes)) => Ok(bytes),
        Some(Err(words)) => Err(ServerError::Keys(join2("bad key base64: ", words.as_str()))),
    }
}

/// What base64 makes of the first private-key block of `pem`.
pub open spec fn key_decoded(pem: Seq<char>) -> Option<Result<Seq<u8>, Seq<char>>> {
    match key_text(lines_of(pem), false, Seq::empty()) {
        Some(text) => Some(text_decoded(text)),
        None => None,
    }
}

/// Reads the DER private key out of the first private-key block of a PEM text.
pub fn key_from_pem(pem: &str) -> (r: Result<Vec<u8>, ServerError>)
    ensures
        key_of(key_decoded(pem@), r),
{
    match key_block(pem) {
        Some(text) => key_from(Some(decode_base64(text.as_str().as_bytes()))),
        None => key_from(None),
    }
}

/// A well-formed block adds its text, and nothing else changes what was read
/// before: an opening line, lines of text, a closing line.
pub proof fn a_block_adds_its_text(
    lines: Seq<Seq<char>>,
    open: Seq<char>,
    body: Seq<Seq<char>>,
    close: Seq<char>,
)
    requires
        opens_certificate(open),
        closes_certificate(close),
        forall|i: int|
            0 <= i < body.len() ==> !opens_certificate(#[trigger] body[i]) && !closes_certificate(
                body[i],
            ),
    ensures
        chain_read(lines + seq![open] + body + seq![close]).blocks == chain_read(
            lines,
        ).blocks.push(joined(body)),
        !chain_read(lines + seq![open] + body + seq![close]).inside,
{
    let opened = lines + seq![open];
    assert(opened.drop_last() =~= lines);
    assert(!opens_certificate(close)) by {
        reveal_strlit("-----BEGIN CERTIFICATE-----");
        reveal_strlit("-----END CERTIFICATE-----");
        let begin = "-----BEGIN CERTIFICATE-----"@;
        let end = "-----END CERTIFICATE-----"@;
        assert(begin[5] == 'B' && end[5] == 'E');
        assert(close.subrange(0, end.len() as int)[5] == 'E');
        if opens_certificate(close) {
            assert(close.subrange(0, begin.len() as int)[5] == 'B');
        }
    }
    body_is_joined(opened, body);
    let all = opened + body + seq![close];
    assert(all.drop_last() =~= opened + body);
    assert(all.last() == close);
    assert(chain_read(opened).b64 + joined(body) =~= joined(body));
}

/// The trimmed lines of a block in a row.
pub open spec fn joined(body: Seq<Seq<char>>) -> Seq<char>
    decreases body.len(),
{
    if body.len() == 0 {
        Seq::empty()
    } else {
        joined(body.drop_last()) + trim(body.last())
    }
}

/// The lines of an open block add their trimmed text to it, and nothing else changes.
pub proof fn body_is_joined(opened: Seq<Seq<char>>, body: Seq<Seq<char>>)
    requires
        chain_read(opened).inside,
        forall|i: int|
            0 <= i < body.len() ==> !opens_certificate(#[trigger] body[i]) && !closes_certificate(
                body[i],
            ),
    ensures
        chain_read(opened + body) == (ChainState {
            b64: chain_read(opened).b64 + joined(body),
            ..chain_read(opened)
        }),
    decreases body.len(),
{
    if body.len() == 0 {
        assert(opened + body =~= opened);
        assert(chain_read(opened).b64 + joined(body) =~= chain_read(opened).b64);
    } else {
        let rest = body.drop_last();
        assert forall|i: int| 0 <= i < rest.len() implies !opens_certificate(#[trigger] rest[i])
            && !closes_certificate(rest[i]) by {
            assert(rest[i] == body[i]);
        }
        body_is_joined(opened, rest);
        assert((opened + body).drop_last() =~= opened + rest);
        assert((opened + body).last() == body[body.len() - 1]);
        assert(chain_read(opened).b64 + joined(rest) + trim(body.last()) =~= chain_read(opened).b64
            + joined(body));
    }
}

/// Text outside of blocks is passed over.
pub proof fn text_between_blocks_is_ignored(lines: Seq<Seq<char>>, line: Seq<char>)
    requires
        !chain_read(lines).inside,
        !opens_certificate(line),
        !closes_certificate(line),
    ensures
        chain_read(lines.push(line)) == chain_read(lines),
{
    assert(lines.push(line).drop_last() =~= lines);
}

/// Whether `line` stands for itself in a text: it holds no line feed and does not end
/// in a carriage return.
pub open spec fn plain_line(line: Seq<char>) -> bool {
    &&& forall|i: int| 0 <= i < line.len() ==> #[trigger] line[i] != '\n'
    &&& line.len() > 0 ==> line.last() != '\r'
}

/// A line that ends at a line feed is split off, and the rest of the text is split as
/// it would be alone.
pub proof fn a_line_is_split_off(line: Seq<char>, rest: Seq<char>)
    requires
        plain_line(line),
    ensures
        lines_of(line + seq!['\n'] + rest) == seq![line] + lines_of(rest),
{
    let s = line + seq!['\n'] + rest;
    let n = line.len() as int;
    assert forall|i: int| 0 <= i < n implies s[i] != '\n' by {
        assert(s[i] == line[i]);
    }
    assert(s[n] == '\n');
    line_len_is(s, n);
    if n > 0 {
        assert(s[n - 1] == line.last());
    }
    assert(s.take(n) =~= line);
    assert(s.skip(n + 1) =~= rest);
}

/// The text made of `lines`, each ended by a line feed.
pub open spec fn text_of_lines(lines: Seq<Seq<char>>) -> Seq<char>
    decreases lines.len(),
{
    if lines.len() == 0 {
        Seq::empty()
    } else {
        lines[0] + seq!['\n'] + text_of_lines(lines.drop_first())
    }
}

/// A text is split into the lines that it was made of.
pub proof fn lines_are_read_back(lines: Seq<Seq<char>>)
    requires
        forall|i: int| 0 <= i < lines.len() ==> plain_line(#[trigger] lines[i]),
    ensures
        lines_of(text_of_lines(lines)) == lines,
    decreases lines.len(),
{
    if lines.len() > 0 {
        let rest = lines.drop_first();
        assert forall|i: int| 0 <= i < rest.len() implies plain_line(#[trigger] rest[i]) by {
            assert(rest[i] == lines[i + 1]);
        }
        lines_are_read_back(rest);
        a_line_is_split_off(lines[0], text_of_lines(rest));
        assert(seq![lines[0]] + rest =~= lines);
    } else {
        assert(lines =~= Seq::<Seq<char>>::empty());
    }
}

/// A text that goes on with a well-formed block holds one block more, of the block's
/// text.
pub proof fn a_block_of_text_is_read(
    before: Seq<Seq<char>>,
    open: Seq<char>,
    body: Seq<Seq<char>>,
    close: Seq<char>,
)
    requires
        opens_certificate(open),
        closes_certificate(close),
        forall|i: int|
            0 <= i < body.len() ==> !opens_certificate(#[trigger] body[i]) && !closes_certificate(
                body[i],
            ),
        forall|i: int| 0 <= i < before.len() ==> plain_line(#[trigger] before[i]),
        forall|i: int| 0 <= i < body.len() ==> plain_line(#[trigger] body[i]),
        plain_line(open),
        plain_line(close),
    ensures
        blocks_of(text_of_lines(before + seq![open] + body + seq![close])) == blocks_of(
            text_of_lines(before),
        ).push(joined(body)),
{
    let all = before + seq![open] + body + seq![close];
    assert forall|i: int| 0 <= i < all.len() implies plain_line(#[trigger] all[i]) by {
        let k = i - before.len();
        if k < 0 {
            assert(all[i] == before[i]);
        } else if k == 0 {
            assert(all[i] == open);
        } else if k <= body.len() {
            assert(all[i] == body[k - 1]);
        } else {
            assert(all[i] == close);
        }
    }
    lines_are_read_back(before);
    lines_are_read_back(all);
    a_block_adds_its_text(before, open, body, close);
}

} // verus!
