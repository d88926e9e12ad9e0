//! Texts that are read and written: port ranges, PEM blocks and buffers.

use vstd::prelude::*;
use vstd::utf8::encode_utf8;

use crate::error::ServerError;
use crate::pem::{
    base64_decoded, blocks_decoded, blocks_of, certificate_blocks, chain_from, chain_of,
    chain_read, closes_certificate, closes_key, decoded_views, has_part, joined, key_block,
    key_decoded, key_from, key_from_pem, key_text, lines, lines_are_read_back, lines_of,
    opens_certificate, opens_key, parse_cert_chain, plain_line, text_of_lines, trim, trim_end,
    trim_start, white_space, Decoded,
};
use crate::ports::{
    bad_u16_words, digits_value, is_digit, range_text_reads_back, u16_of, PortRange,
};
use crate::text::{
    chars_of, decimal, decimal_string, digit, join2, join3, list_has, str_eq, texts,
};
use crate::transport::{fill_start, fill_step, read_outcome, FillStep};

verus! {

/// A number is written in digits that stand for it, without a zero in front.
pub proof fn a_number_is_written_in_full(n: u64, r: String)
    requires
        call_ensures(decimal_string, (n,), r),
    ensures
        r@.len() > 0,
        forall|i: int| 0 <= i < r@.len() ==> '0' <= #[trigger] r@[i] <= '9',
        digits_value(r@) == n,
        r@.len() > 1 ==> r@[0] != '0',
{
    digits_are_in_full(n as nat);
}

proof fn digits_are_in_full(n: nat)
    ensures
        decimal(n).len() > 0,
        forall|i: int| 0 <= i < decimal(n).len() ==> is_digit(#[trigger] decimal(n)[i]),
        digits_value(decimal(n)) == n,
        n > 0 ==> decimal(n)[0] != '0',
        decimal(n).len() > 1 ==> n > 0,
    decreases n,
{
    let s = decimal(n);
    if n < 10 {
        assert(s.drop_last() =~= Seq::<char>::empty());
        reveal_with_fuel(digits_value, 2);
        assert(s.last() == digit(n));
    } else {
        digits_are_in_full(n / 10);
        assert(s.drop_last() =~= decimal(n / 10));
        assert(s.last() == digit(n % 10));
        assert(s[0] == decimal(n / 10)[0]);
    }
}

/// Digits stand for their number in base ten, one place after the other.
pub proof fn a_digit_more_is_ten_times_as_much(s: Seq<char>, d: char)
    requires
        '0' <= d <= '9',
    ensures
        digits_value(Seq::<char>::empty()) == 0,
        digits_value(s.push(d)) == 10 * digits_value(s) + (d as int - '0' as int),
{
    assert(s.push(d).drop_last() =~= s);
}

/// A range is read exactly from two numbers around the first dash, the lower one first,
/// and keeps them.
pub proof fn a_range_is_read_from_its_ends(s: &str, r: Result<PortRange, String>)
    requires
        call_ensures(PortRange::from_str, (s,), r),
    ensures
        r matches Ok(range) ==> range.lo <= range.hi && exists|k: int|
            {
                &&& 0 <= k < s@.len()
                &&& #[trigger] s@[k] == '-'
                &&& forall|i: int| 0 <= i < k ==> s@[i] != '-'
                &&& u16_of(s@.take(k)) == Some(range.lo)
                &&& u16_of(s@.skip(k + 1)) == Some(range.hi)
            },
        forall|k: int|
            {
                &&& 0 <= k < s@.len()
                &&& #[trigger] s@[k] == '-'
                &&& forall|i: int| 0 <= i < k ==> s@[i] != '-'
                &&& u16_of(s@.take(k)) is Some
                &&& u16_of(s@.skip(k + 1)) is Some
            } ==> (if u16_of(s@.take(k))->0 <= u16_of(s@.skip(k + 1))->0 {
                r is Ok
            } else {
                r is Err && r->Err_0@ == "lo > hi"@
            }),
        forall|k: int|
            {
                &&& 0 <= k < s@.len()
                &&& #[trigger] s@[k] == '-'
                &&& forall|i: int| 0 <= i < k ==> s@[i] != '-'
            } ==> {
                &&& u16_of(s@.take(k)) is None ==> r is Err && r->Err_0@ == bad_u16_words(
                    s@.take(k),
                )
                &&& u16_of(s@.take(k)) is Some && u16_of(s@.skip(k + 1)) is None ==> r is Err
                    && r->Err_0@ == bad_u16_words(s@.skip(k + 1))
            },
        (forall|i: int| 0 <= i < s@.len() ==> #[trigger] s@[i] != '-') ==> r is Err && r->Err_0@
            == "expected lo-hi"@,
{
    s@.index_of_first_ensures('-');
    if let Some(k) = s@.index_of_first('-') {
        assert(s@[k] == '-');
        assert forall|j: int|
            0 <= j < s@.len() && #[trigger] s@[j] == '-' && (forall|i: int|
                0 <= i < j ==> s@[i] != '-') implies j == k by {}
    }
}

/// A range that is written is read back as it was, if its ends are in order; if not, it
/// is refused.
pub proof fn a_written_range_is_read_back(
    range: PortRange,
    t: String,
    s: &str,
    r: Result<PortRange, String>,
)
    requires
        call_ensures(PortRange::to_text, (&range,), t),
        s@ == t@,
        call_ensures(PortRange::from_str, (s,), r),
    ensures
        range.lo <= range.hi ==> r == Ok::<PortRange, String>(range),
        range.lo > range.hi ==> r is Err && r->Err_0@ == "lo > hi"@,
{
    if range.lo <= range.hi {
        range_text_reads_back(range, r);
    } else {
        let lo = decimal(range.lo as nat);
        let hi = decimal(range.hi as nat);
        let text = range.text();
        digits_are_in_full(range.lo as nat);
        digits_are_in_full(range.hi as nat);
        reveal_strlit("-");
        let k = lo.len() as int;
        assert(text[k] == '-');
        assert forall|i: int| 0 <= i < k implies text[i] != '-' by {
            assert(text[i] == lo[i]);
            assert(is_digit(lo[i]));
        }
        text.index_of_first_ensures('-');
        assert(text.index_of_first('-') == Some(k));
        assert(text.take(k) =~= lo);
        assert(text.skip(k + 1) =~= hi);
        assert(is_digit(lo[0]) && is_digit(hi[0]));
    }
}

/// Two ends make a range if both were read and are in order; otherwise the first thing
/// that is wrong is told.
pub proof fn a_range_needs_both_its_ends(
    lo: Result<u16, String>,
    hi: Result<u16, String>,
    r: Result<PortRange, String>,
)
    requires
        call_ensures(PortRange::from_ends, (lo, hi), r),
    ensures
        r matches Ok(range) ==> lo == Ok::<u16, String>(range.lo) && hi == Ok::<u16, String>(
            range.hi,
        ),
        r is Ok <==> lo is Ok && hi is Ok && lo->Ok_0 <= hi->Ok_0,
        lo matches Err(words) ==> r == Err::<PortRange, String>(words),
        lo is Ok ==> (hi matches Err(words) ==> r == Err::<PortRange, String>(words)),
        lo is Ok && hi is Ok && lo->Ok_0 > hi->Ok_0 ==> r is Err && r->Err_0@ == "lo > hi"@,
{
}

/// A buffer is full exactly when as many bytes as it holds have been read, and a read
/// that delivers nothing before that is an end too soon; otherwise reading goes on right
/// behind what was read.
pub proof fn a_buffer_fills_without_gaps(
    want: usize,
    start: FillStep,
    got: usize,
    n: usize,
    next: FillStep,
)
    requires
        call_ensures(fill_start, (want,), start),
        got < want,
        n <= want - got,
        call_ensures(fill_step, (got, n, want), next),
    ensures
        start is Done <==> want == 0,
        want > 0 ==> start == FillStep::ReadAt(0),
        next is UnexpectedEof <==> n == 0,
        next is Done <==> n > 0 && got + n == want,
        next matches FillStep::ReadAt(at) ==> at == got + n && got < at < want,
{
}

/// A read tells how much it delivered, and that the stream has ended only if something
/// was wanted and nothing came.
pub proof fn an_empty_read_is_the_end(n: usize, want: usize, r: Option<usize>)
    requires
        n <= want,
        call_ensures(read_outcome, (n, want), r),
    ensures
        r is None <==> want > 0 && n == 0,
        r matches Some(k) ==> k == n,
{
}

/// A text without a line feed is one line, unless it is empty; a line ends at a line
/// feed, and a carriage return before that belongs to the end.
pub proof fn a_text_is_split_at_its_line_feeds(
    s: &str,
    out: Vec<String>,
    line: Seq<char>,
    rest: Seq<char>,
)
    requires
        call_ensures(lines, (s,), out),
        forall|i: int| 0 <= i < line.len() ==> #[trigger] line[i] != '\n',
    ensures
        s@.len() == 0 ==> out@.len() == 0,
        s@ == line && line.len() > 0 ==> texts(out@) == seq![line],
        s@ == line + seq!['\r', '\n'] + rest ==> texts(out@) == seq![line] + lines_of(rest),
        s@ == line + seq!['\n'] + rest && (line.len() > 0 ==> line.last() != '\r') ==> texts(out@)
            == seq![line] + lines_of(rest),
{
    assert(texts(out@).len() == out@.len());
    if s@ == line {
        crate::pem::line_len_is(line, line.len() as int);
    }
    if s@ == line + seq!['\r', '\n'] + rest {
        let n = line.len() as int + 1;
        assert forall|i: int| 0 <= i < n implies s@[i] != '\n' by {
            if i < line.len() {
                assert(s@[i] == line[i]);
            }
        }
        assert(s@[n] == '\n');
        crate::pem::line_len_is(s@, n);
        assert(s@[n - 1] == '\r');
        assert(s@.take(n - 1) =~= line);
        assert(s@.skip(n + 1) =~= rest);
    }
    if s@ == line + seq!['\n'] + rest && (line.len() > 0 ==> line.last() != '\r') {
        crate::pem::a_line_is_split_off(line, rest);
    }
}

/// Trimming takes white space from both ends, all of it, and nothing else.
pub proof fn trimming_takes_white_space_alone(s: Seq<char>) -> (ends: (int, int))
    ensures
        0 <= ends.0 <= ends.1 <= s.len(),
        trim(s) == s.subrange(ends.0, ends.1),
        forall|i: int| 0 <= i < ends.0 ==> white_space(#[trigger] s[i]),
        forall|i: int| ends.1 <= i < s.len() ==> white_space(#[trigger] s[i]),
        ends.0 < ends.1 ==> !white_space(s[ends.0]) && !white_space(s[ends.1 - 1]),
{
    let lo = trimmed_from(s);
    let kept = s.skip(lo);
    let n = trimmed_to(kept);
    assert(kept.take(n) =~= s.subrange(lo, lo + n));
    assert forall|i: int| lo + n <= i < s.len() implies white_space(#[trigger] s[i]) by {
        assert(kept[i - lo] == s[i]);
    }
    (lo, lo + n)
}

proof fn trimmed_from(s: Seq<char>) -> (lo: int)
    ensures
        0 <= lo <= s.len(),
        trim_start(s) == s.skip(lo),
        forall|i: int| 0 <= i < lo ==> white_space(#[trigger] s[i]),
        lo < s.len() ==> !white_space(s[lo]),
    decreases s.len(),
{
    if s.len() > 0 && white_space(s[0]) {
        let rest = s.drop_first();
        let lo = trimmed_from(rest);
        assert(rest.skip(lo) =~= s.skip(lo + 1));
        assert forall|i: int| 0 <= i < lo + 1 implies white_space(#[trigger] s[i]) by {
            if i > 0 {
                assert(rest[i - 1] == s[i]);
            }
        }
        lo + 1
    } else {
        assert(s.skip(0) =~= s);
        0
    }
}

proof fn trimmed_to(s: Seq<char>) -> (hi: int)
    ensures
        0 <= hi <= s.len(),
        trim_end(s) == s.take(hi),
        forall|i: int| hi <= i < s.len() ==> white_space(#[trigger] s[i]),
        hi > 0 ==> !white_space(s[hi - 1]),
    decreases s.len(),
{
    if s.len() > 0 && white_space(s.last()) {
        let rest = s.drop_last();
        let hi = trimmed_to(rest);
        assert(rest.take(hi) =~= s.take(hi));
        assert forall|i: int| hi <= i < s.len() implies white_space(#[trigger] s[i]) by {
            if i < rest.len() {
                assert(rest[i] == s[i]);
            }
        }
        hi
    } else {
        assert(s.take(s.len() as int) =~= s);
        s.len() as int
    }
}

/// The blocks of a chain are read one by one: the lines between a line that starts with
/// the opening words and one that starts with the closing words make one block more,
/// with nothing but their trimmed text. Lines in between blocks make none. A closing
/// line that nothing was opened for yields the last block's text once more.
pub proof fn a_block_is_read_between_its_lines(
    before: Seq<Seq<char>>,
    x: Seq<char>,
    body: Seq<Seq<char>>,
    y: Seq<char>,
    z: Seq<char>,
    less: &str,
    first: Vec<String>,
    more: &str,
    second: Vec<String>,
    most: &str,
    third: Vec<String>,
    plain: &str,
    fourth: Vec<String>,
)
    requires
        less@ == text_of_lines(before),
        more@ == text_of_lines(
            before + seq!["-----BEGIN CERTIFICATE-----"@ + x] + body
                + seq!["-----END CERTIFICATE-----"@ + y],
        ),
        most@ == text_of_lines(
            before + seq!["-----BEGIN CERTIFICATE-----"@ + x] + body
                + seq!["-----END CERTIFICATE-----"@ + y] + seq!["-----END CERTIFICATE-----"@ + y],
        ),
        plain@ == text_of_lines(
            before + seq!["-----BEGIN CERTIFICATE-----"@ + x] + body
                + seq!["-----END CERTIFICATE-----"@ + y] + seq![z],
        ),
        call_ensures(certificate_blocks, (less,), first),
        call_ensures(certificate_blocks, (more,), second),
        call_ensures(certificate_blocks, (most,), third),
        call_ensures(certificate_blocks, (plain,), fourth),
        forall|i: int| 0 <= i < before.len() ==> plain_line(#[trigger] before[i]),
        forall|i: int|
            0 <= i < body.len() ==> {
                &&& plain_line(#[trigger] body[i])
                &&& !"-----BEGIN CERTIFICATE-----"@.is_prefix_of(body[i])
                &&& !"-----END CERTIFICATE-----"@.is_prefix_of(body[i])
            },
        plain_line("-----BEGIN CERTIFICATE-----"@ + x),
        plain_line("-----END CERTIFICATE-----"@ + y),
        plain_line(z),
        !"-----BEGIN CERTIFICATE-----"@.is_prefix_of(z),
        !"-----END CERTIFICATE-----"@.is_prefix_of(z),
    ensures
        before.len() == 0 ==> first@.len() == 0,
        texts(second@) == texts(first@).push(joined(body)),
        texts(third@) == texts(second@).push(joined(body)),
        texts(fourth@) == texts(second@),
{
    let open = "-----BEGIN CERTIFICATE-----"@ + x;
    let close = "-----END CERTIFICATE-----"@ + y;
    assert(open.subrange(0, "-----BEGIN CERTIFICATE-----"@.len() as int)
        =~= "-----BEGIN CERTIFICATE-----"@);
    assert(close.subrange(0, "-----END CERTIFICATE-----"@.len() as int)
        =~= "-----END CERTIFICATE-----"@);
    assert(opens_certificate(open));
    assert(closes_certificate(close));
    assert(!opens_certificate(close)) by {
        reveal_strlit("-----BEGIN CERTIFICATE-----");
        reveal_strlit("-----END CERTIFICATE-----");
        let begin = "-----BEGIN CERTIFICATE-----"@;
        assert(close[5] == 'E');
        if opens_certificate(close) {
            assert(close.subrange(0, begin.len() as int)[5] == 'B');
        }
    }
    crate::pem::a_block_of_text_is_read(before, open, body, close);
    let all = before + seq![open] + body + seq![close];
    let twice = all + seq![close];
    let padded = all + seq![z];
    assert forall|i: int| 0 <= i < all.len() implies plain_line(#[trigger] all[i]) by {
        let k = i - before.len();
        if k < 0 {
            assert(all[i] == before[i]);
        } else if k == 0 {
            assert(all[i] == open);
        } else if k <= body.len() {
            assert(all[i] == body[k - 1]);
        } else {
            assert(all[i] == close);
        }
    }
    assert forall|i: int| 0 <= i < twice.len() implies plain_line(#[trigger] twice[i]) by {
        if i < all.len() {
            assert(twice[i] == all[i]);
        }
    }
    assert forall|i: int| 0 <= i < padded.len() implies plain_line(#[trigger] padded[i]) by {
        if i < all.len() {
            assert(padded[i] == all[i]);
        }
    }
    lines_are_read_back(before);
    lines_are_read_back(all);
    lines_are_read_back(twice);
    lines_are_read_back(padded);
    assert(twice.drop_last() =~= all);
    assert(padded.drop_last() =~= all);
    block_text_is_kept(before, open, body, close);
    assert(texts(first@).len() == first@.len());
}

proof fn block_text_is_kept(
    before: Seq<Seq<char>>,
    open: Seq<char>,
    body: Seq<Seq<char>>,
    close: Seq<char>,
)
    requires
        opens_certificate(open),
        closes_certificate(close),
        !opens_certificate(close),
        forall|i: int|
            0 <= i < body.len() ==> !opens_certificate(#[trigger] body[i]) && !closes_certificate(
                body[i],
            ),
    ensures
        chain_read(before + seq![open] + body + seq![close]).b64 == joined(body),
        !chain_read(before + seq![open] + body + seq![close]).inside,
{
    let opened = before + seq![open];
    let all = opened + body + seq![close];
    assert(opened.drop_last() =~= before);
    crate::pem::body_is_joined(opened, body);
    assert(all.drop_last() =~= opened + body);
    assert(all.last() == close);
    assert(Seq::<char>::empty() + joined(body) =~= joined(body));
}

/// The text of a block is that of its lines in a row, each without the white space
/// around it.
pub proof fn a_block_is_its_trimmed_lines(body: Seq<Seq<char>>, line: Seq<char>)
    ensures
        joined(Seq::<Seq<char>>::empty()) == Seq::<char>::empty(),
        joined(body.push(line)) == joined(body) + trim(line),
{
    assert(body.push(line).drop_last() =~= body);
}

/// Decoded blocks make a chain exactly if there is any and all were decoded; otherwise
/// the first that was not is told of.
pub proof fn a_chain_needs_every_block(decoded: Vec<Decoded>, r: Result<Vec<Vec<u8>>, ServerError>)
    requires
        call_ensures(chain_from, (decoded,), r),
    ensures
        decoded@.len() == 0 ==> (r matches Err(ServerError::Keys(why)) && why@
            == "no CERTIFICATE blocks in chain"@),
        r is Ok <==> decoded@.len() > 0 && forall|i: int|
            0 <= i < decoded@.len() ==> #[trigger] decoded@[i] is Ok,
        r matches Ok(chain) ==> {
            &&& chain@.len() == decoded@.len()
            &&& forall|i: int|
                0 <= i < decoded@.len() ==> (#[trigger] chain@[i])@ == decoded@[i]->Ok_0@
        },
        forall|k: int|
            0 <= k < decoded@.len() && (#[trigger] decoded@[k] is Err) && (forall|j: int|
                0 <= j < k ==> #[trigger] decoded@[j] is Ok) ==> (
            r matches Err(ServerError::Keys(why)) && why@ == "bad cert base64: "@
                + decoded@[k]->Err_0@),
{
    let views = decoded_views(decoded@);
    assert(views.len() == decoded@.len());
    assert forall|i: int| 0 <= i < decoded@.len() implies ((#[trigger] decoded@[i]) is Ok
        <==> views[i] is Ok) && (decoded@[i] is Ok ==> views[i]->Ok_0 == decoded@[i]->Ok_0@) && (
    decoded@[i] is Err ==> views[i]->Err_0 == decoded@[i]->Err_0@) by {}
    assert forall|k: int|
        0 <= k < decoded@.len() && (#[trigger] decoded@[k] is Err) && (forall|j: int|
            0 <= j < k ==> #[trigger] decoded@[j] is Ok) implies (
    r matches Err(ServerError::Keys(why)) && why@ == "bad cert base64: "@ + decoded@[k]->Err_0@) by {
        assert(views[k] is Err);
        assert forall|j: int| 0 <= j < k implies #[trigger] views[j] is Ok by {
            assert(decoded@[j] is Ok);
        }
        let first = choose|i: int|
            0 <= i < views.len() && #[trigger] views[i] is Err && forall|j: int|
                0 <= j < i ==> #[trigger] views[j] is Ok;
        assert(first == k) by {
            if first < k {
                assert(views[first] is Ok);
            }
            if k < first {
                assert(views[k] is Ok);
            }
        }
    }
    if r is Ok {
        assert forall|i: int| 0 <= i < decoded@.len() implies #[trigger] decoded@[i] is Ok by {
            assert(!(views[i] is Err));
        }
    } else if decoded@.len() > 0 {
        let i = choose|i: int| 0 <= i < views.len() && #[trigger] views[i] is Err;
        assert(decoded@[i] is Err);
    }
}

/// A chain is what base64 makes of the blocks of its text, block by block.
pub proof fn a_chain_is_its_decoded_blocks(
    pem: &str,
    blocks: Vec<String>,
    r: Result<Vec<Vec<u8>>, ServerError>,
)
    requires
        call_ensures(certificate_blocks, (pem,), blocks),
        call_ensures(parse_cert_chain, (pem,), r),
    ensures
        blocks_of(pem@) == texts(blocks@),
        chain_of(blocks_decoded(texts(blocks@)), r),
        r is Ok <==> blocks@.len() > 0 && forall|i: int|
            0 <= i < blocks@.len() ==> base64_decoded(encode_utf8((#[trigger] blocks@[i])@)) is Ok,
        r matches Ok(chain) ==> {
            &&& chain@.len() == blocks@.len()
            &&& forall|i: int|
                0 <= i < blocks@.len() ==> (#[trigger] chain@[i])@ == base64_decoded(
                    encode_utf8(blocks@[i]@),
                )->Ok_0
        },
{
    let all = texts(blocks@);
    let decoded = blocks_decoded(all);
    assert(all.len() == blocks@.len());
    assert forall|i: int| 0 <= i < blocks@.len() implies decoded[i] == base64_decoded(
        encode_utf8((#[trigger] blocks@[i])@),
    ) by {
        assert(all[i] == blocks@[i]@);
    }
    if r is Ok {
        assert forall|i: int| 0 <= i < blocks@.len() implies base64_decoded(
            encode_utf8((#[trigger] blocks@[i])@),
        ) is Ok by {
            assert(!(decoded[i] is Err));
        }
    } else if blocks@.len() > 0 {
        let i = choose|i: int| 0 <= i < decoded.len() && #[trigger] decoded[i] is Err;
        assert(base64_decoded(encode_utf8(blocks@[i]@)) is Err);
    }
}

/// Whether `words` stand somewhere in `line`.
pub open spec fn says(line: Seq<char>, words: Seq<char>) -> bool {
    exists|a: Seq<char>, b: Seq<char>| line == #[trigger] (a + words + b)
}

proof fn says_is_has_part(line: Seq<char>, words: Seq<char>)
    ensures
        says(line, words) <==> has_part(line, words),
{
    if says(line, words) {
        let (a, b) = choose|a: Seq<char>, b: Seq<char>| line == #[trigger] (a + words + b);
        let i = a.len() as int;
        assert(line.subrange(i, i + words.len()) =~= words);
    }
    if has_part(line, words) {
        let i = choose|i: int|
            0 <= i && i + words.len() <= line.len() && #[trigger] line.subrange(
                i,
                i + words.len(),
            ) == words;
        let a = line.take(i);
        let b = line.skip(i + words.len());
        assert(line =~= a + words + b);
    }
}

/// A private key is read from the first block of any kind of private key that is closed:
/// the trimmed lines between the line that says where it begins and the first that says
/// where it ends, whatever was begun before and whatever comes after. Without a line that
/// closes a block there is none.
pub proof fn a_key_is_read_from_its_block(
    before: Seq<Seq<char>>,
    open: Seq<char>,
    body: Seq<Seq<char>>,
    close: Seq<char>,
    after: Seq<Seq<char>>,
    none: &str,
    nothing: Option<String>,
    pem: &str,
    r: Option<String>,
)
    requires
        none@ == text_of_lines(before),
        pem@ == text_of_lines(before + seq![open] + body + seq![close] + after),
        call_ensures(key_block, (none,), nothing),
        call_ensures(key_block, (pem,), r),
        forall|i: int|
            0 <= i < before.len() ==> plain_line(#[trigger] before[i]) && (!says(
                before[i],
                "PRIVATE KEY"@,
            ) || !says(before[i], "END"@) || says(before[i], "BEGIN"@)),
        forall|i: int|
            0 <= i < body.len() ==> plain_line(#[trigger] body[i]) && !says(
                body[i],
                "PRIVATE KEY"@,
            ),
        forall|i: int| 0 <= i < after.len() ==> plain_line(#[trigger] after[i]),
        plain_line(open),
        plain_line(close),
        says(open, "BEGIN"@),
        says(open, "PRIVATE KEY"@),
        says(close, "END"@),
        says(close, "PRIVATE KEY"@),
        !says(close, "BEGIN"@),
    ensures
        nothing is None,
        r is Some,
        r->0@ == joined(body),
{
    let all = before + seq![open] + body + seq![close] + after;
    let rest = body + seq![close] + after;
    let end = seq![close] + after;
    assert forall|i: int| 0 <= i < all.len() implies plain_line(#[trigger] all[i]) by {
        let k = i - before.len();
        if k < 0 {
            assert(all[i] == before[i]);
        } else if k == 0 {
            assert(all[i] == open);
        } else if k <= body.len() {
            assert(all[i] == body[k - 1]);
        } else if k == body.len() + 1 {
            assert(all[i] == close);
        } else {
            assert(all[i] == after[k - body.len() - 2]);
        }
    }
    lines_are_read_back(before);
    lines_are_read_back(all);
    says_is_has_part(open, "BEGIN"@);
    says_is_has_part(open, "PRIVATE KEY"@);
    says_is_has_part(close, "BEGIN"@);
    says_is_has_part(close, "END"@);
    says_is_has_part(close, "PRIVATE KEY"@);
    assert forall|i: int| 0 <= i < before.len() implies opens_key(#[trigger] before[i])
        || !closes_key(before[i]) by {
        says_is_has_part(before[i], "PRIVATE KEY"@);
        says_is_has_part(before[i], "BEGIN"@);
        says_is_has_part(before[i], "END"@);
    }
    assert forall|i: int| 0 <= i < body.len() implies !has_part(
        #[trigger] body[i],
        "PRIVATE KEY"@,
    ) by {
        says_is_has_part(body[i], "PRIVATE KEY"@);
    }
    nothing_is_closed(before, false, Seq::empty());
    a_key_begins_afresh(before, open, rest, false, Seq::empty());
    assert(before + seq![open] + rest =~= all);
    lines_of_a_key_are_joined(body, end, Seq::empty());
    assert(body + end =~= rest);
    assert(end[0] == close);
    assert(Seq::<char>::empty() + joined(body) =~= joined(body));
}

proof fn nothing_is_closed(lines: Seq<Seq<char>>, inside: bool, b64: Seq<char>)
    requires
        forall|i: int|
            0 <= i < lines.len() ==> opens_key(#[trigger] lines[i]) || !closes_key(lines[i]),
    ensures
        key_text(lines, inside, b64) is None,
    decreases lines.len(),
{
    if lines.len() > 0 {
        let less = lines.drop_first();
        assert forall|i: int| 0 <= i < less.len() implies opens_key(#[trigger] less[i])
            || !closes_key(less[i]) by {
            assert(less[i] == lines[i + 1]);
        }
        assert(opens_key(lines[0]) || !closes_key(lines[0]));
        nothing_is_closed(less, true, Seq::empty());
        nothing_is_closed(less, inside, b64 + trim(lines[0]));
        nothing_is_closed(less, inside, b64);
    }
}

proof fn a_key_begins_afresh(
    before: Seq<Seq<char>>,
    open: Seq<char>,
    rest: Seq<Seq<char>>,
    inside: bool,
    b64: Seq<char>,
)
    requires
        forall|i: int|
            0 <= i < before.len() ==> opens_key(#[trigger] before[i]) || !closes_key(before[i]),
        opens_key(open),
    ensures
        key_text(before + seq![open] + rest, inside, b64) == key_text(rest, true, Seq::empty()),
    decreases before.len(),
{
    let all = before + seq![open] + rest;
    if before.len() == 0 {
        assert(all[0] == open);
        assert(all.drop_first() =~= rest);
    } else {
        let less = before.drop_first();
        assert forall|i: int| 0 <= i < less.len() implies opens_key(#[trigger] less[i])
            || !closes_key(less[i]) by {
            assert(less[i] == before[i + 1]);
        }
        assert(opens_key(before[0]) || !closes_key(before[0]));
        assert(all[0] == before[0]);
        assert(all.drop_first() =~= less + seq![open] + rest);
        a_key_begins_afresh(less, open, rest, true, Seq::empty());
        a_key_begins_afresh(less, open, rest, inside, b64 + trim(before[0]));
        a_key_begins_afresh(less, open, rest, inside, b64);
    }
}

/// A line that closes a block that nothing was begun for yields a key without text.
pub proof fn a_key_that_was_not_begun_is_empty(
    before: Seq<Seq<char>>,
    close: Seq<char>,
    after: Seq<Seq<char>>,
    pem: &str,
    r: Option<String>,
)
    requires
        pem@ == text_of_lines(before + seq![close] + after),
        call_ensures(key_block, (pem,), r),
        forall|i: int|
            0 <= i < before.len() ==> plain_line(#[trigger] before[i]) && !says(
                before[i],
                "PRIVATE KEY"@,
            ),
        forall|i: int| 0 <= i < after.len() ==> plain_line(#[trigger] after[i]),
        plain_line(close),
        says(close, "END"@),
        says(close, "PRIVATE KEY"@),
        !says(close, "BEGIN"@),
    ensures
        r is Some,
        r->0@.len() == 0,
{
    let all = before + seq![close] + after;
    let end = seq![close] + after;
    assert forall|i: int| 0 <= i < all.len() implies plain_line(#[trigger] all[i]) by {
        let k = i - before.len();
        if k < 0 {
            assert(all[i] == before[i]);
        } else if k == 0 {
            assert(all[i] == close);
        } else {
            assert(all[i] == after[k - 1]);
        }
    }
    lines_are_read_back(all);
    says_is_has_part(close, "BEGIN"@);
    says_is_has_part(close, "END"@);
    says_is_has_part(close, "PRIVATE KEY"@);
    assert forall|i: int| 0 <= i < before.len() implies !has_part(
        #[trigger] before[i],
        "PRIVATE KEY"@,
    ) by {
        says_is_has_part(before[i], "PRIVATE KEY"@);
    }
    lines_before_a_key_are_skipped(before, end);
    assert(before + end =~= all);
    assert(end[0] == close);
}

proof fn lines_before_a_key_are_skipped(before: Seq<Seq<char>>, rest: Seq<Seq<char>>)
    requires
        forall|i: int| 0 <= i < before.len() ==> !has_part(#[trigger] before[i], "PRIVATE KEY"@),
    ensures
        key_text(before + rest, false, Seq::empty()) == key_text(rest, false, Seq::empty()),
    decreases before.len(),
{
    if before.len() == 0 {
        assert(before + rest =~= rest);
    } else {
        let less = before.drop_first();
        assert forall|i: int| 0 <= i < less.len() implies !has_part(
            #[trigger] less[i],
            "PRIVATE KEY"@,
        ) by {
            assert(less[i] == before[i + 1]);
        }
        lines_before_a_key_are_skipped(less, rest);
        assert((before + rest)[0] == before[0]);
        assert((before + rest).drop_first() =~= less + rest);
    }
}

proof fn lines_of_a_key_are_joined(body: Seq<Seq<char>>, rest: Seq<Seq<char>>, b64: Seq<char>)
    requires
        forall|i: int| 0 <= i < body.len() ==> !has_part(#[trigger] body[i], "PRIVATE KEY"@),
    ensures
        key_text(body + rest, true, b64) == key_text(rest, true, b64 + joined(body)),
    decreases body.len(),
{
    if body.len() == 0 {
        assert(body + rest =~= rest);
        assert(b64 + joined(body) =~= b64);
    } else {
        let less = body.drop_last();
        let last = seq![body.last()] + rest;
        assert forall|i: int| 0 <= i < less.len() implies !has_part(
            #[trigger] less[i],
            "PRIVATE KEY"@,
        ) by {
            assert(less[i] == body[i]);
        }
        lines_of_a_key_are_joined(less, last, b64);
        assert(less + last =~= body + rest);
        assert(last[0] == body[body.len() - 1]);
        assert(last.drop_first() =~= rest);
        assert(b64 + joined(less) + trim(body.last()) =~= b64 + joined(body));
    }
}

/// The key is what base64 makes of the block's text; what is wrong is told.
pub proof fn a_key_is_its_decoded_block(
    pem: &str,
    block: Option<String>,
    r: Result<Vec<u8>, ServerError>,
)
    requires
        call_ensures(key_block, (pem,), block),
        call_ensures(key_from_pem, (pem,), r),
    ensures
        block is None ==> key_decoded(pem@) is None && (r matches Err(ServerError::Keys(why))
            && why@ == "no PRIVATE KEY block in cached key"@),
        block matches Some(text) ==> {
            let decoded = base64_decoded(encode_utf8(text@));
            &&& key_decoded(pem@) == Some(decoded)
            &&& decoded matches Ok(bytes) ==> (r matches Ok(der) && der@ == bytes)
            &&& decoded matches Err(words) ==> (r matches Err(ServerError::Keys(why)) && why@
                == "bad key base64: "@ + words)
        },
{
}

/// A decoded block is the key; what is wrong with it, or that there is none, is told.
pub proof fn a_decoded_block_is_the_key(decoded: Option<Decoded>, r: Result<Vec<u8>, ServerError>)
    requires
        call_ensures(key_from, (decoded,), r),
    ensures
        decoded is None ==> (r matches Err(ServerError::Keys(why)) && why@
            == "no PRIVATE KEY block in cached key"@),
        decoded matches Some(Ok(bytes)) ==> (r matches Ok(der) && der@ == bytes@),
        decoded matches Some(Err(words)) ==> (r matches Err(ServerError::Keys(why)) && why@
            == "bad key base64: "@ + words@),
{
}

/// White space is what Unicode counts as such, by its code points.
pub proof fn white_space_goes_by_code_point(c: char)
    ensures
        ({
            let code = c as u32;
            white_space(c) <==> {
                ||| 9 <= code <= 13
                ||| code == 32 || code == 133 || code == 160 || code == 5760
                ||| 8192 <= code <= 8202
                ||| code == 8232 || code == 8233 || code == 8239 || code == 8287 || code == 12288
            }
        }),
{
}

/// Two texts are the same exactly if they agree character by character, and a list that
/// is found to have a text holds it somewhere.
pub proof fn texts_are_compared_by_character(
    a: &str,
    b: &str,
    same: bool,
    chars: Vec<char>,
    list: &Vec<String>,
    found: bool,
)
    requires
        call_ensures(str_eq, (a, b), same),
        call_ensures(chars_of, (a,), chars),
        call_ensures(list_has, (list, a), found),
    ensures
        same <==> a@.len() == b@.len() && forall|i: int|
            0 <= i < a@.len() ==> #[trigger] a@[i] == b@[i],
        chars@.len() == a@.len(),
        forall|i: int| 0 <= i < a@.len() ==> #[trigger] chars@[i] == a@[i],
        found ==> exists|i: int| 0 <= i < list@.len() && #[trigger] list@[i]@ == a@,
{
    if a@.len() == b@.len() && forall|i: int| 0 <= i < a@.len() ==> #[trigger] a@[i] == b@[i] {
        assert(a@ =~= b@);
    }
}

/// Joined texts stand in a row, each in full.
pub proof fn joined_texts_stand_in_a_row(a: &str, b: &str, c: &str, two: String, three: String)
    requires
        call_ensures(join2, (a, b), two),
        call_ensures(join3, (a, b, c), three),
    ensures
        two@.len() == a@.len() + b@.len(),
        two@.take(a@.len() as int) == a@,
        two@.skip(a@.len() as int) == b@,
        three@ == two@ + c@,
{
    assert(two@.take(a@.len() as int) =~= a@);
    assert(two@.skip(a@.len() as int) =~= b@);
}

} // verus!
