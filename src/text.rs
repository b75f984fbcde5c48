//! Text primitives shared by the listing parsers: whitespace tokenizing,
//! line splitting, joining and matching over `char` sequences.
use vstd::prelude::*;

verus! {

/// Relies on std's `String::push`: the character is appended at the end.
pub assume_specification[ String::push ](s: &mut String, ch: char)
    ensures
        final(s)@ == old(s)@.push(ch),
;

/// Unicode `White_Space`, the property that `char::is_whitespace` tests.
pub open spec fn is_space(c: char) -> bool {
    let v = c as u32;
    (9 <= v <= 13) || v == 32 || v == 0x85 || v == 0xa0 || v == 0x1680 || (0x2000 <= v <= 0x200a)
        || v == 0x2028 || v == 0x2029 || v == 0x202f || v == 0x205f || v == 0x3000
}

/// The character views of a sequence of strings.
pub open spec fn views(v: Seq<String>) -> Seq<Seq<char>> {
    v.map_values(|t: String| t@)
}

/// The maximal runs of non-whitespace characters of `s`, left to right.
pub open spec fn words(s: Seq<char>) -> Seq<Seq<char>>
    decreases s.len(),
{
    if s.len() == 0 {
        Seq::empty()
    } else {
        let prev = words(s.drop_last());
        let c = s.last();
        if is_space(c) {
            prev
        } else if s.len() >= 2 && !is_space(s[s.len() - 2]) {
            prev.update(prev.len() - 1, prev.last().push(c))
        } else {
            prev.push(seq![c])
        }
    }
}

/// The words joined by single spaces.
pub open spec fn join(ws: Seq<Seq<char>>) -> Seq<char>
    decreases ws.len(),
{
    if ws.len() == 0 {
        Seq::empty()
    } else if ws.len() == 1 {
        ws[0]
    } else {
        join(ws.drop_last()) + seq![' '] + ws.last()
    }
}

/// `s` ends with `suffix`.
pub open spec fn has_suffix(s: Seq<char>, suffix: Seq<char>) -> bool {
    s.len() >= suffix.len() && s.subrange(s.len() - suffix.len(), s.len() as int) == suffix
}

/// `s` without its trailing `:` characters.
pub open spec fn strip_colons(s: Seq<char>) -> Seq<char>
    decreases s.len(),
{
    if s.len() > 0 && s.last() == ':' {
        strip_colons(s.drop_last())
    } else {
        s
    }
}

/// Every character of `s` is whitespace (`s` trims to nothing).
pub open spec fn is_blank(s: Seq<char>) -> bool {
    forall|i: int| 0 <= i < s.len() ==> is_space(#[trigger] s[i])
}

/// `needle` occurs in `hay` as a contiguous run.
pub open spec fn occurs_in(needle: Seq<char>, hay: Seq<char>) -> bool {
    exists|i: int| 0 <= i && i + needle.len() <= hay.len() && #[trigger] hay.subrange(i, i + needle.len()) == needle
}

/// The pieces of `s` between `\n` separators (always at least one).
pub open spec fn pieces(s: Seq<char>) -> Seq<Seq<char>>
    decreases s.len(),
{
    if s.len() == 0 {
        seq![Seq::empty()]
    } else {
        let p = pieces(s.drop_last());
        if s.last() == '\n' {
            p.push(Seq::empty())
        } else {
            p.update(p.len() - 1, p.last().push(s.last()))
        }
    }
}

/// A line terminated by `\n` loses one `\r` before the terminator.
pub open spec fn strip_cr(l: Seq<char>) -> Seq<char> {
    if l.len() > 0 && l.last() == '\r' {
        l.drop_last()
    } else {
        l
    }
}

/// The lines of `s` as `str::lines` yields them: split at `\n` or `\r\n`,
/// with no empty line after a final terminator.
pub open spec fn lines_of(s: Seq<char>) -> Seq<Seq<char>> {
    let p = pieces(s);
    let full = p.drop_last().map_values(|l: Seq<char>| strip_cr(l));
    if p.last().len() == 0 {
        full
    } else {
        full.push(p.last())
    }
}

pub proof fn lemma_pieces_nonempty(s: Seq<char>)
    ensures
        pieces(s).len() >= 1,
    decreases s.len(),
{
    if s.len() > 0 {
        lemma_pieces_nonempty(s.drop_last());
    }
}

pub fn is_space_char(c: char) -> (r: bool)
    ensures
        r == is_space(c),
{
    let v = c as u32;
    (9 <= v && v <= 13) || v == 32 || v == 0x85 || v == 0xa0 || v == 0x1680 || (0x2000 <= v && v
        <= 0x200a) || v == 0x2028 || v == 0x2029 || v == 0x202f || v == 0x205f || v == 0x3000
}

/// The characters of `s`, in order.
pub fn chars_of(s: &str) -> (r: Vec<char>)
    ensures
        r@ == s@,
{
    let mut out: Vec<char> = Vec::new();
    for c in it: s.chars()
        invariant
            it.seq() == s@,
            out@ == s@.take(it.index() as int),
    {
        out.push(c);
    }
    out
}

/// Splits `s` into its whitespace-separated words.
pub fn split_words(s: &str) -> (r: Vec<String>)
    ensures
        views(r@) == words(s@),
{
    let mut out: Vec<String> = Vec::new();
    let mut cur = String::new();
    let mut prev_space = true;
    for c in it: s.chars()
        invariant
            it.seq() == s@,
            prev_space == (it.index() == 0 || is_space(s@[it.index() - 1])),
            prev_space ==> views(out@) == words(s@.take(it.index() as int)) && cur@.len() == 0,
            !prev_space ==> views(out@).push(cur@) == words(s@.take(it.index() as int)),
    {
        let ghost i = it.index();
        let ghost pre = s@.take(i as int);
        let ghost next = s@.take(i + 1);
        assert(next.drop_last() == pre);
        assert(next.last() == c);
        if is_space_char(c) {
            if !prev_space {
                out.push(cur);
                cur = String::new();
                assert(views(out@) =~= views(out@).drop_last().push(views(out@).last()));
            }
            prev_space = true;
        } else {
            if prev_space {
                cur.push(c);
                assert(cur@ =~= seq![c]);
                assert(views(out@).push(cur@) =~= words(pre).push(seq![c]));
            } else {
                let ghost before = cur@;
                cur.push(c);
                assert(views(out@).push(cur@) =~= words(pre).update(words(pre).len() - 1, before.push(c)));
            }
            prev_space = false;
        }
        assert(next == s@.take(it.index() + 1));
    }
    assert(s@.take(s@.len() as int) == s@);
    if !prev_space {
        out.push(cur);
        assert(views(out@) =~= words(s@));
    }
    out
}

/// Splits `s` into lines the way `str::lines` does.
pub fn split_lines(s: &str) -> (r: Vec<String>)
    ensures
        views(r@) == lines_of(s@),
{
    let mut done: Vec<String> = Vec::new();
    let mut cur = String::new();
    let mut cr_pending = false;
    proof {
        lemma_pieces_nonempty(s@.take(0));
        assert(s@.take(0) =~= Seq::<char>::empty());
        assert(views(done@) =~= pieces(s@.take(0)).drop_last().map_values(|l: Seq<char>| strip_cr(l)));
    }
    for c in it: s.chars()
        invariant
            it.seq() == s@,
            pieces(s@.take(it.index() as int)).len() >= 1,
            views(done@) == pieces(s@.take(it.index() as int)).drop_last().map_values(
                |l: Seq<char>| strip_cr(l),
            ),
            pieces(s@.take(it.index() as int)).last() == (if cr_pending {
                cur@.push('\r')
            } else {
                cur@
            }),
            !cr_pending ==> (cur@.len() == 0 || cur@.last() != '\r'),
    {
        let ghost i = it.index();
        let ghost pre = s@.take(i as int);
        let ghost next = s@.take(i + 1);
        assert(next.drop_last() == pre);
        assert(next.last() == c);
        let ghost p = pieces(pre);
        if c == '\n' {
            assert(strip_cr(p.last()) == cur@);
            let ghost old_done = views(done@);
            let ghost cur_v = cur@;
            done.push(cur);
            assert(views(done@) =~= old_done.push(cur_v));
            assert(p.map_values(|l: Seq<char>| strip_cr(l)) =~= p.drop_last().map_values(
                |l: Seq<char>| strip_cr(l),
            ).push(strip_cr(p.last())));
            cur = String::new();
            cr_pending = false;
            assert(pieces(next).drop_last() =~= p);
            assert(views(done@) =~= pieces(next).drop_last().map_values(|l: Seq<char>| strip_cr(l)));
            assert(cur@ =~= Seq::<char>::empty());
        } else {
            if cr_pending {
                cur.push('\r');
            }
            if c == '\r' {
                cr_pending = true;
            } else {
                cur.push(c);
                cr_pending = false;
            }
            assert(pieces(next).drop_last() =~= p.drop_last());
            assert(pieces(next).last() =~= (if cr_pending { cur@.push('\r') } else { cur@ }));
        }
        assert(next == s@.take(it.index() + 1));
    }
    assert(s@.take(s@.len() as int) == s@);
    if cr_pending {
        cur.push('\r');
    }
    if cur.as_str().unicode_len() > 0 {
        done.push(cur);
        assert(views(done@) =~= lines_of(s@));
    }
    done
}

/// The words `ws[from..to]` joined by single spaces.
pub fn join_words(ws: &Vec<String>, from: usize, to: usize) -> (r: String)
    requires
        from <= to <= ws.len(),
    ensures
        r@ == join(views(ws@).subrange(from as int, to as int)),
{
    let mut out = String::new();
    let mut i = from;
    while i < to
        invariant
            from <= i <= to <= ws.len(),
            out@ == join(views(ws@).subrange(from as int, i as int)),
        decreases to - i,
    {
        let ghost prev = views(ws@).subrange(from as int, i as int);
        let ghost next = views(ws@).subrange(from as int, i + 1);
        assert(next.drop_last() =~= prev);
        if i > from {
            out.push(' ');
        }
        out.append(ws[i].as_str());
        proof {
            if i == from {
                assert(next =~= seq![ws@[i as int]@]);
                assert(out@ =~= join(next));
            } else {
                assert(out@ =~= join(next));
            }
        }
        i = i + 1;
    }
    out
}

/// `s` ends with `suffix`.
pub fn ends_with(s: &str, suffix: &str) -> (r: bool)
    ensures
        r == has_suffix(s@, suffix@),
{
    let a = chars_of(s);
    let b = chars_of(suffix);
    if a.len() < b.len() {
        return false;
    }
    let off = a.len() - b.len();
    let mut i: usize = 0;
    while i < b.len()
        invariant
            a@ == s@,
            b@ == suffix@,
            off == a.len() - b.len(),
            i <= b.len(),
            forall|j: int| 0 <= j < i ==> a@[off + j] == b@[j],
        decreases b.len() - i,
    {
        if a[off + i] != b[i] {
            assert(s@.subrange(off as int, s@.len() as int)[i as int] != suffix@[i as int]);
            return false;
        }
        i = i + 1;
    }
    assert(s@.subrange(off as int, s@.len() as int) =~= suffix@);
    true
}

/// The two strings hold the same characters.
pub fn same_text(a: &str, b: &str) -> (r: bool)
    ensures
        r == (a@ == b@),
{
    let x = chars_of(a);
    let y = chars_of(b);
    if x.len() != y.len() {
        return false;
    }
    let mut i: usize = 0;
    while i < x.len()
        invariant
            x@ == a@,
            y@ == b@,
            x.len() == y.len(),
            i <= x.len(),
            forall|j: int| 0 <= j < i ==> x@[j] == y@[j],
        decreases x.len() - i,
    {
        if x[i] != y[i] {
            return false;
        }
        i = i + 1;
    }
    assert(x@ =~= y@);
    true
}

/// `s` without its trailing `:` characters.
pub fn trim_colons(s: &str) -> (r: String)
    ensures
        r@ == strip_colons(s@),
{
    let cs = chars_of(s);
    let mut end = cs.len();
    assert(s@.take(end as int) =~= s@);
    while end > 0 && cs[end - 1] == ':'
        invariant
            cs@ == s@,
            end <= cs.len(),
            strip_colons(s@) == strip_colons(s@.take(end as int)),
        decreases end,
    {
        assert(s@.take(end as int).drop_last() =~= s@.take(end - 1));
        end = end - 1;
    }
    let mut out = String::new();
    let mut i: usize = 0;
    while i < end
        invariant
            cs@ == s@,
            end <= cs.len(),
            i <= end,
            out@ == s@.take(i as int),
        decreases end - i,
    {
        out.push(cs[i]);
        assert(out@ =~= s@.take(i + 1));
        i = i + 1;
    }
    assert(s@.take(end as int) == strip_colons(s@.take(end as int)));
    out
}

/// Every character of `s` is whitespace.
pub fn is_blank_text(s: &str) -> (r: bool)
    ensures
        r == is_blank(s@),
{
    let mut all = true;
    for c in it: s.chars()
        invariant
            it.seq() == s@,
            all == (forall|j: int| 0 <= j < it.index() ==> is_space(#[trigger] s@[j])),
    {
        if !is_space_char(c) {
            all = false;
        }
    }
    all
}

/// `needle` occurs in `hay`.
pub fn contains_text(hay: &Vec<char>, needle: &Vec<char>) -> (r: bool)
    ensures
        r == occurs_in(needle@, hay@),
{
    if needle.len() > hay.len() {
        return false;
    }
    let last = hay.len() - needle.len();
    let mut i: usize = 0;
    while i <= last
        invariant
            last == hay.len() - needle.len(),
            i <= last + 1,
            forall|k: int| 0 <= k < i ==> #[trigger] hay@.subrange(k, k + needle.len()) != needle@,
        decreases last + 1 - i,
    {
        let mut j: usize = 0;
        let mut same = true;
        while j < needle.len()
            invariant
                i <= last,
                last == hay.len() - needle.len(),
                j <= needle.len(),
                same == (forall|m: int| 0 <= m < j ==> hay@[i + m] == needle@[m]),
            decreases needle.len() - j,
        {
            if hay[i + j] != needle[j] {
                same = false;
            }
            j = j + 1;
        }
        if same {
            assert(hay@.subrange(i as int, i + needle.len()) =~= needle@);
            return true;
        }
        assert(hay@.subrange(i as int, i + needle.len())[0] == hay@[i as int]);
        assert(exists|m: int| 0 <= m < needle.len() && hay@[i + m] != needle@[m]);
        let ghost m = choose|m: int| 0 <= m < needle.len() && hay@[i + m] != needle@[m];
        assert(hay@.subrange(i as int, i + needle.len())[m] != needle@[m]);
        i = i + 1;
    }
    proof {
        if occurs_in(needle@, hay@) {
            let k = choose|k: int| 0 <= k && k + needle.len() <= hay.len() && #[trigger] hay@.subrange(k, k + needle.len()) == needle@;
            assert(hay@.subrange(k, k + needle.len()) != needle@);
        }
    }
    false
}

/// The lower-case form of a text, as `str::to_lowercase` computes it.
pub uninterp spec fn lower_of(s: Seq<char>) -> Seq<char>;

/// Relies on `str::to_lowercase`: the result is a function of the characters alone.
#[verifier::external_body]
pub(crate) fn lowercase(s: &str) -> (r: String)
    ensures
        r@ == lower_of(s@),
{
    s.to_lowercase()
}

/// `s` without its last character, if it has one.
pub fn drop_last_char(s: &str) -> (r: String)
    ensures
        r@ == (if s@.len() > 0 {
            s@.drop_last()
        } else {
            s@
        }),
{
    let cs = chars_of(s);
    let n: usize = if cs.len() > 0 {
        cs.len() - 1
    } else {
        0
    };
    let mut out = String::new();
    let mut i: usize = 0;
    while i < n
        invariant
            cs@ == s@,
            n <= cs.len(),
            i <= n,
            out@ == s@.take(i as int),
        decreases n - i,
    {
        out.push(cs[i]);
        assert(out@ =~= s@.take(i + 1));
        i = i + 1;
    }
    assert(out@ =~= (if s@.len() > 0 {
        s@.drop_last()
    } else {
        s@
    }));
    out
}

} // verus!
