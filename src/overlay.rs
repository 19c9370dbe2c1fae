use vstd::prelude::*;

verus! {

/// `<body>`
pub open spec fn body_open() -> Seq<u8> {
    seq![60u8, 98u8, 111u8, 100u8, 121u8, 62u8]
}

/// `</body>`
pub open spec fn body_close() -> Seq<u8> {
    seq![60u8, 47u8, 98u8, 111u8, 100u8, 121u8, 62u8]
}

/// `<style>`
pub open spec fn style_open() -> Seq<u8> {
    seq![60u8, 115u8, 116u8, 121u8, 108u8, 101u8, 62u8]
}

/// `</style>`
pub open spec fn style_close() -> Seq<u8> {
    seq![60u8, 47u8, 115u8, 116u8, 121u8, 108u8, 101u8, 62u8]
}

/// Whether `needle` occurs in `hay` at position `i`.
pub open spec fn occurs_at(hay: Seq<u8>, needle: Seq<u8>, i: int) -> bool {
    0 <= i && i + needle.len() <= hay.len() && hay.subrange(i, i + needle.len()) == needle
}

/// The first position at or after `i` where `needle` occurs in `hay`.
pub open spec fn find_from(hay: Seq<u8>, needle: Seq<u8>, i: int) -> Option<int>
    decreases hay.len() + 1 - i,
{
    if i < 0 || i + needle.len() > hay.len() {
        None
    } else if occurs_at(hay, needle, i) {
        Some(i)
    } else {
        find_from(hay, needle, i + 1)
    }
}

/// The first position where `needle` occurs in `hay`.
pub open spec fn spec_find(hay: Seq<u8>, needle: Seq<u8>) -> Option<int> {
    find_from(hay, needle, 0)
}

/// The bytes of `hay` from `start` to `end`, or nothing when that is not a
/// range of it.
pub open spec fn range_or_empty(hay: Seq<u8>, start: int, end: int) -> Seq<u8> {
    if 0 <= start <= end <= hay.len() {
        hay.subrange(start, end)
    } else {
        seq![]
    }
}

/// The page's body content: from after `<body>` (or from byte 6 when there
/// is none) up to `</body>` (or the end).
pub open spec fn spec_body(html: Seq<u8>) -> Seq<u8> {
    let start = match spec_find(html, body_open()) {
        Some(i) => i + 6,
        None => 6,
    };
    let end = match spec_find(html, body_close()) {
        Some(i) => i,
        None => html.len() as int,
    };
    range_or_empty(html, start, end)
}

/// The page's style element, tags included: only when `<style>` and
/// `</style>` both occur after the first byte.
pub open spec fn spec_styles(html: Seq<u8>) -> Seq<u8> {
    let start = match spec_find(html, style_open()) {
        Some(i) => i,
        None => 0,
    };
    let end = match spec_find(html, style_close()) {
        Some(i) => i + 8,
        None => 8,
    };
    if start > 0 && end > 8 {
        range_or_empty(html, start, end)
    } else {
        seq![]
    }
}

/// The text escaped for a template literal of the hosted page's script: a
/// backtick and the opening `${` of a placeholder each get a backslash.
pub open spec fn spec_escape(s: Seq<u8>) -> Seq<u8>
    decreases s.len(),
{
    if s.len() == 0 {
        seq![]
    } else if s[0] == 96u8 {
        seq![92u8, 96u8] + spec_escape(s.drop_first())
    } else if s.len() >= 2 && s[0] == 36u8 && s[1] == 123u8 {
        seq![92u8, 36u8, 123u8] + spec_escape(s.subrange(2, s.len() as int))
    } else {
        seq![s[0]] + spec_escape(s.drop_first())
    }
}

/// The two parts of the settings page that its overlay shows.
pub struct OverlayParts {
    pub styles: Vec<u8>,
    pub body: Vec<u8>,
}

fn occurs_here(hay: &Vec<u8>, needle: &Vec<u8>, i: usize) -> (r: bool)
    requires
        i + needle@.len() <= hay@.len(),
    ensures
        r == occurs_at(hay@, needle@, i as int),
{
    let n = hay.len();
    let mut k: usize = 0;
    while k < needle.len()
        invariant
            i + needle@.len() <= hay@.len(),
            n == hay@.len(),
            k <= needle@.len(),
            forall|j: int| 0 <= j < k ==> hay@[i + j] == needle@[j],
        decreases needle@.len() - k,
    {
        if hay[i + k] != needle[k] {
            assert(hay@.subrange(i as int, i + needle@.len())[k as int] != needle@[k as int]);
            return false;
        }
        k = k + 1;
    }
    assert(hay@.subrange(i as int, i + needle@.len()) =~= needle@);
    true
}

/// The first position where `needle` occurs in `hay`.
pub fn find_bytes(hay: &Vec<u8>, needle: &Vec<u8>) -> (r: Option<usize>)
    ensures
        match r {
            Some(i) => spec_find(hay@, needle@) == Some(i as int),
            None => spec_find(hay@, needle@) is None,
        },
{
    if needle.len() > hay.len() {
        return None;
    }
    let last = hay.len() - needle.len();
    let mut i: usize = 0;
    loop
        invariant
            last + needle@.len() == hay@.len(),
            i <= last,
            find_from(hay@, needle@, 0) == find_from(hay@, needle@, i as int),
        decreases last - i,
    {
        if occurs_here(hay, needle, i) {
            return Some(i);
        }
        if i == last {
            assert(find_from(hay@, needle@, i + 1) is None);
            return None;
        }
        i = i + 1;
    }
}

fn copy_range(hay: &Vec<u8>, start: usize, end: usize) -> (r: Vec<u8>)
    ensures
        r@ == range_or_empty(hay@, start as int, end as int),
{
    let mut r: Vec<u8> = Vec::new();
    if start > end || end > hay.len() {
        return r;
    }
    let mut i: usize = start;
    while i < end
        invariant
            start <= i <= end <= hay@.len(),
            r@ == hay@.subrange(start as int, i as int),
        decreases end - i,
    {
        r.push(hay[i]);
        i = i + 1;
        assert(r@ =~= hay@.subrange(start as int, i as int));
    }
    r
}

fn body_open_bytes() -> (r: Vec<u8>)
    ensures
        r@ == body_open(),
{
    let r: Vec<u8> = vec![60u8, 98u8, 111u8, 100u8, 121u8, 62u8];
    assert(r@ =~= body_open());
    r
}

fn body_close_bytes() -> (r: Vec<u8>)
    ensures
        r@ == body_close(),
{
    let r: Vec<u8> = vec![60u8, 47u8, 98u8, 111u8, 100u8, 121u8, 62u8];
    assert(r@ =~= body_close());
    r
}

fn style_open_bytes() -> (r: Vec<u8>)
    ensures
        r@ == style_open(),
{
    let r: Vec<u8> = vec![60u8, 115u8, 116u8, 121u8, 108u8, 101u8, 62u8];
    assert(r@ =~= style_open());
    r
}

fn style_close_bytes() -> (r: Vec<u8>)
    ensures
        r@ == style_close(),
{
    let r: Vec<u8> = vec![60u8, 47u8, 115u8, 116u8, 121u8, 108u8, 101u8, 62u8];
    assert(r@ =~= style_close());
    r
}

/// The style element and the body content of the settings page.
pub fn settings_overlay_parts(html: &Vec<u8>) -> (r: OverlayParts)
    ensures
        r.styles@ == spec_styles(html@),
        r.body@ == spec_body(html@),
{
    let n = html.len();
    proof {
        lemma_find_fits(html@, body_open(), 0);
        lemma_find_fits(html@, style_close(), 0);
    }
    let body_start: usize = match find_bytes(html, &body_open_bytes()) {
        Some(i) => i + 6,
        None => 6,
    };
    let body_end: usize = match find_bytes(html, &body_close_bytes()) {
        Some(i) => i,
        None => n,
    };
    let body = copy_range(html, body_start, body_end);
    let style_start: usize = match find_bytes(html, &style_open_bytes()) {
        Some(i) => i,
        None => 0,
    };
    let style_end: usize = match find_bytes(html, &style_close_bytes()) {
        Some(i) => i + 8,
        None => 8,
    };
    let styles = if style_start > 0 && style_end > 8 {
        copy_range(html, style_start, style_end)
    } else {
        Vec::new()
    };
    assert(styles@ =~= spec_styles(html@));
    OverlayParts { styles, body }
}

/// Where `find_from` succeeds, the needle fits inside the text there.
pub proof fn lemma_find_fits(hay: Seq<u8>, needle: Seq<u8>, i: int)
    ensures
        match find_from(hay, needle, i) {
            Some(k) => i <= k && k + needle.len() <= hay.len(),
            None => true,
        },
    decreases hay.len() + 1 - i,
{
    if !(i < 0 || i + needle.len() > hay.len()) && !occurs_at(hay, needle, i) {
        lemma_find_fits(hay, needle, i + 1);
    }
}

/// Escapes text for a template literal of the hosted page's script.
pub fn escape_template(s: &Vec<u8>) -> (r: Vec<u8>)
    ensures
        r@ == spec_escape(s@),
{
    let mut out: Vec<u8> = Vec::new();
    let mut i: usize = 0;
    assert(s@.subrange(0, s@.len() as int) =~= s@);
    while i < s.len()
        invariant
            i <= s@.len(),
            out@ + spec_escape(s@.subrange(i as int, s@.len() as int)) == spec_escape(s@),
        decreases s@.len() - i,
    {
        let ghost rest = s@.subrange(i as int, s@.len() as int);
        if s[i] == 96u8 {
            out.push(92u8);
            out.push(96u8);
            assert(rest.drop_first() =~= s@.subrange(i + 1, s@.len() as int));
            i = i + 1;
        } else if i + 1 < s.len() && s[i] == 36u8 && s[i + 1] == 123u8 {
            out.push(92u8);
            out.push(36u8);
            out.push(123u8);
            assert(rest.subrange(2, rest.len() as int) =~= s@.subrange(i + 2, s@.len() as int));
            i = i + 2;
        } else {
            out.push(s[i]);
            assert(rest.drop_first() =~= s@.subrange(i + 1, s@.len() as int));
            i = i + 1;
        }
        assert(out@ + spec_escape(s@.subrange(i as int, s@.len() as int)) =~= spec_escape(s@));
    }
    assert(s@.subrange(i as int, s@.len() as int) =~= seq![]);
    assert(out@ =~= spec_escape(s@));
    out
}

} // verus!
