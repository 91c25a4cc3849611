//! Paths as the hub reads them, and the rule that guards every name a client sends.
//!
//! A path is a string of segments divided by `/`. A name that a client
//! sends is accepted only if it is one single ordinary name: it is not
//! empty, holds no separator, and is neither `.` nor `..`.
//!
//! The components of a longer path, such as the path of an entry in an
//! archive, are what is left after normalisation: a leading `/` is the
//! root, a leading `.` the current directory, `..` the parent; repeated
//! separators, a trailing separator and every other `.` mean nothing.

use vstd::prelude::*;
use vstd::string::*;
use crate::error::{HubError, HubErrorView};
use crate::strings::{chars_of, string_of_range};

verus! {

/// One component of a path, in contracts.
pub ghost enum Component {
    RootDir,
    CurDir,
    ParentDir,
    Normal(Seq<char>),
}

/// One component of a path.
#[derive(Debug)]
pub enum PathComponent {
    RootDir,
    CurDir,
    ParentDir,
    Normal(String),
}

impl View for PathComponent {
    type V = Component;

    open spec fn view(&self) -> Component {
        match self {
            PathComponent::RootDir => Component::RootDir,
            PathComponent::CurDir => Component::CurDir,
            PathComponent::ParentDir => Component::ParentDir,
            PathComponent::Normal(name) => Component::Normal(name@),
        }
    }
}

/// The components of a parsed path, in contracts.
pub open spec fn views_of(parts: Seq<PathComponent>) -> Seq<Component> {
    parts.map_values(|c: PathComponent| c@)
}

/// The index of the first `/` in `p`, or the length of `p` where it has none.
pub open spec fn first_separator(p: Seq<char>) -> int
    decreases p.len(),
{
    if p.len() == 0 {
        0
    } else if p[0] == '/' {
        0
    } else {
        1 + first_separator(p.skip(1))
    }
}

/// The single character `.`.
pub open spec fn dot() -> Seq<char> {
    seq!['.']
}

/// The two characters `..`.
pub open spec fn dot_dot() -> Seq<char> {
    seq!['.', '.']
}

/// What one segment between separators contributes: nothing where it is
/// empty or `.`, the parent for `..`, else an ordinary name.
pub open spec fn segment_components(segment: Seq<char>) -> Seq<Component> {
    if segment.len() == 0 || segment == dot() {
        Seq::empty()
    } else if segment == dot_dot() {
        seq![Component::ParentDir]
    } else {
        seq![Component::Normal(segment)]
    }
}

/// The components of a path behind its root or leading `.`, segment by segment.
pub open spec fn body_components(p: Seq<char>) -> Seq<Component>
    decreases p.len(),
{
    if p.len() == 0 {
        Seq::empty()
    } else {
        let k = first_separator(p);
        if 0 <= k < p.len() {
            segment_components(p.take(k)) + body_components(p.skip(k + 1))
        } else {
            segment_components(p)
        }
    }
}

/// Whether a path begins at the root.
pub open spec fn is_absolute(p: Seq<char>) -> bool {
    p.len() > 0 && p[0] == '/'
}

/// Whether a path begins with the current directory: it is `.` or starts with `./`.
pub open spec fn starts_with_cur_dir(p: Seq<char>) -> bool {
    p.len() > 0 && p[0] == '.' && (p.len() == 1 || p[1] == '/')
}

/// The components of a path.
pub open spec fn components(p: Seq<char>) -> Seq<Component> {
    if is_absolute(p) {
        seq![Component::RootDir] + body_components(p.skip(1))
    } else if starts_with_cur_dir(p) {
        seq![Component::CurDir] + body_components(p.skip(1))
    } else {
        body_components(p)
    }
}

/// A path that is exactly one ordinary name: split at its separators it is
/// one piece, and that piece is not empty and is neither `.` nor `..`.
pub open spec fn is_single_name(p: Seq<char>) -> bool {
    &&& p.len() > 0
    &&& forall|i: int| 0 <= i < p.len() ==> p[i] != '/'
    &&& p != dot()
    &&& p != dot_dot()
}

/// A path that stays below the directory it is joined to: it is not absolute
/// and no component of it is the parent directory.
pub open spec fn stays_below(p: Seq<char>) -> bool {
    forall|i: int|
        0 <= i < components(p).len() ==> !(#[trigger] components(p)[i] is RootDir) && !(
        components(p)[i] is ParentDir)
}

/// `base` with `name` adjoined: a separator is put between them where `base`
/// does not end in one, and an absolute `name` takes the place of `base`.
pub open spec fn joined(base: Seq<char>, name: Seq<char>) -> Seq<char> {
    if is_absolute(name) {
        name
    } else if base.len() == 0 || base.last() == '/' {
        base + name
    } else {
        base + seq!['/'] + name
    }
}

/// The first separator of `p` is at `k` where no character before `k` is a
/// separator and `k` is the end of `p` or holds one.
pub proof fn lemma_first_separator(p: Seq<char>, k: int)
    requires
        0 <= k <= p.len(),
        forall|j: int| 0 <= j < k ==> p[j] != '/',
        k == p.len() || p[k] == '/',
    ensures
        first_separator(p) == k,
    decreases k,
{
    if k > 0 {
        lemma_first_separator(p.skip(1), k - 1);
    }
}

/// The first separator lies within the path, and nothing before it is a separator.
pub proof fn lemma_first_separator_is_first(p: Seq<char>)
    ensures
        0 <= first_separator(p) <= p.len(),
        forall|j: int| 0 <= j < first_separator(p) ==> p[j] != '/',
        first_separator(p) == p.len() || p[first_separator(p)] == '/',
    decreases p.len(),
{
    if p.len() > 0 && p[0] != '/' {
        lemma_first_separator_is_first(p.skip(1));
        let k = first_separator(p.skip(1));
        assert forall|j: int| 0 <= j < 1 + k implies p[j] != '/' by {
            if j > 0 {
                assert(p.skip(1)[j - 1] == p[j]);
            }
        }
        if k < p.skip(1).len() {
            assert(p.skip(1)[k] == p[k + 1]);
        }
    }
}

/// A single name is its own only component.
pub proof fn lemma_single_name_is_one_component(name: Seq<char>)
    requires
        is_single_name(name),
    ensures
        components(name) == seq![Component::Normal(name)],
        !is_absolute(name),
        !starts_with_cur_dir(name),
{
    lemma_first_separator(name, name.len() as int);
    assert(name[0] != '/');
    if starts_with_cur_dir(name) {
        if name.len() > 1 {
            assert(name[1] != '/');
        }
        assert(name =~= dot());
    }
}

/// A path with a separator in it is no single name, whatever its components
/// are: neither a separator at its end nor a `.` behind one is let through.
pub proof fn lemma_separator_is_refused(p: Seq<char>, at: int)
    requires
        0 <= at < p.len(),
        p[at] == '/',
    ensures
        !is_single_name(p),
{
}

/// An absolute path is never a single name, and it does not stay below a base.
pub proof fn lemma_absolute_is_refused(p: Seq<char>)
    requires
        is_absolute(p),
    ensures
        !is_single_name(p),
        !stays_below(p),
{
    assert(components(p)[0] is RootDir);
    assert(p[0] == '/');
}

/// Whether the segment `..` stands in `p` at index `at`: between separators
/// or the ends of the path.
pub open spec fn parent_segment_at(p: Seq<char>, at: int) -> bool {
    &&& 0 <= at
    &&& at + 2 <= p.len()
    &&& p[at] == '.'
    &&& p[at + 1] == '.'
    &&& (at == 0 || p[at - 1] == '/')
    &&& (at + 2 == p.len() || p[at + 2] == '/')
}

/// A segment `..` anywhere in a path behind its root gives a parent component.
proof fn lemma_parent_in_body(p: Seq<char>, at: int) -> (i: int)
    requires
        parent_segment_at(p, at),
    ensures
        0 <= i < body_components(p).len(),
        body_components(p)[i] is ParentDir,
    decreases p.len(),
{
    lemma_first_separator_is_first(p);
    let k = first_separator(p);
    if at == 0 {
        lemma_first_separator(p, 2);
        assert(p.take(2) =~= dot_dot());
        assert(dot_dot() != dot()) by {
            assert(dot_dot().len() == 2);
        }
        if 2 == p.len() {
            assert(p =~= p.take(2));
        }
        0
    } else {
        assert(k <= at - 1) by {
            if k > at - 1 {
                assert(p[at - 1] != '/');
            }
        }
        let rest = p.skip(k + 1);
        assert(parent_segment_at(rest, at - k - 1)) by {
            assert(rest[at - k - 1] == p[at]);
            assert(rest[at - k] == p[at + 1]);
            if at - k - 1 > 0 {
                assert(rest[at - k - 2] == p[at - 1]);
            }
            if at + 2 < p.len() {
                assert(rest[at - k + 1] == p[at + 2]);
            }
        }
        let j = lemma_parent_in_body(rest, at - k - 1);
        let head = segment_components(p.take(k));
        assert((head + body_components(rest))[head.len() + j] == body_components(rest)[j]);
        head.len() + j
    }
}

/// A path with a segment `..` is never a single name, and it does not stay below a base.
pub proof fn lemma_parent_is_refused(p: Seq<char>, at: int)
    requires
        parent_segment_at(p, at),
    ensures
        !is_single_name(p),
        !stays_below(p),
{
    assert(!is_single_name(p)) by {
        if at > 0 {
            assert(p[at - 1] == '/');
        } else if at + 2 < p.len() {
            assert(p[at + 2] == '/');
        } else {
            assert(p =~= dot_dot());
        }
    }
    if is_absolute(p) {
        lemma_absolute_is_refused(p);
    } else if starts_with_cur_dir(p) {
        let rest = p.skip(1);
        assert(at >= 1);
        assert(parent_segment_at(rest, at - 1)) by {
            assert(rest[at - 1] == p[at]);
            assert(rest[at] == p[at + 1]);
            if at - 1 > 0 {
                assert(rest[at - 2] == p[at - 1]);
            }
            if at + 2 < p.len() {
                assert(rest[at + 1] == p[at + 2]);
            }
        }
        let j = lemma_parent_in_body(rest, at - 1);
        assert(components(p)[0] is CurDir);
        assert(components(p)[1 + j] == body_components(rest)[j]);
    } else {
        let j = lemma_parent_in_body(p, at);
        assert(components(p)[j] is ParentDir);
    }
}

/// The components behind a separator follow those before it.
pub proof fn lemma_body_across_separator(a: Seq<char>, b: Seq<char>)
    ensures
        body_components(a + seq!['/'] + b) == body_components(a) + body_components(b),
    decreases a.len(),
{
    let s = a + seq!['/'] + b;
    lemma_first_separator_is_first(a);
    let j = first_separator(a);
    assert forall|i: int| 0 <= i < j implies s[i] != '/' by {
        assert(s[i] == a[i]);
    }
    if j < a.len() {
        assert(s[j] == a[j]);
    } else {
        assert(s[j] == '/');
    }
    lemma_first_separator(s, j);
    assert(s.take(j) =~= a.take(j));
    if j < a.len() {
        assert(s.skip(j + 1) =~= a.skip(j + 1) + seq!['/'] + b);
        lemma_body_across_separator(a.skip(j + 1), b);
        assert(segment_components(a.take(j)) + (body_components(a.skip(j + 1)) + body_components(
            b,
        )) =~= segment_components(a.take(j)) + body_components(a.skip(j + 1)) + body_components(
            b,
        ));
    } else {
        assert(s.skip(j + 1) =~= b);
        assert(a.take(j) =~= a);
        if a.len() == 0 {
            assert(Seq::<Component>::empty() + body_components(b) =~= body_components(b));
            assert(segment_components(a) =~= Seq::<Component>::empty());
        }
    }
}

/// A separator at the end of a path adds no component.
pub proof fn lemma_trailing_separator(a: Seq<char>)
    requires
        a.len() > 0,
    ensures
        components(a + seq!['/']) == components(a),
{
    let s = a + seq!['/'];
    assert(s[0] == a[0]);
    if is_absolute(a) || starts_with_cur_dir(a) {
        if a.len() > 1 {
            assert(s[1] == a[1]);
        }
        assert(s.skip(1) =~= a.skip(1) + seq!['/'] + Seq::<char>::empty());
        lemma_body_across_separator(a.skip(1), Seq::<char>::empty());
        assert(body_components(a.skip(1)) + Seq::<Component>::empty() =~= body_components(
            a.skip(1),
        ));
    } else {
        if a.len() > 1 {
            assert(s[1] == a[1]);
        }
        assert(s =~= a + seq!['/'] + Seq::<char>::empty());
        lemma_body_across_separator(a, Seq::<char>::empty());
        assert(body_components(a) + Seq::<Component>::empty() =~= body_components(a));
    }
}

/// Behind a base that ends in a separator, a relative name adds what its
/// segments contribute.
proof fn lemma_components_behind_separator(a: Seq<char>, name: Seq<char>)
    requires
        !is_absolute(name),
    ensures
        components(a + seq!['/'] + name) == components(a + seq!['/']) + body_components(name),
{
    let s = a + seq!['/'] + name;
    let t = a + seq!['/'];
    let none = Seq::<char>::empty();
    assert(s[0] == t[0]);
    assert(t.len() >= 2 ==> s[1] == t[1]);
    if a.len() == 0 {
        assert(s.skip(1) =~= name);
        assert(t.skip(1) =~= none);
        assert(seq![Component::RootDir] + Seq::<Component>::empty() + body_components(name)
            =~= seq![Component::RootDir] + body_components(name));
    } else if is_absolute(t) || starts_with_cur_dir(t) {
        assert(s.skip(1) =~= a.skip(1) + seq!['/'] + name);
        assert(t.skip(1) =~= a.skip(1) + seq!['/'] + none);
        lemma_body_across_separator(a.skip(1), name);
        lemma_body_across_separator(a.skip(1), none);
        let head = components(t).take(1);
        assert(components(s) =~= head + (body_components(a.skip(1)) + body_components(name)));
        assert(components(t) =~= head + (body_components(a.skip(1)) + Seq::<
            Component,
        >::empty()));
    } else {
        assert(t =~= a + seq!['/'] + none);
        lemma_body_across_separator(a, name);
        lemma_body_across_separator(a, none);
        assert(body_components(a) + Seq::<Component>::empty() =~= body_components(a));
    }
}

/// A relative path adjoined to a base lies below the base: the components of
/// the joined path are those of the base, followed by what the segments of
/// the path contribute.
proof fn lemma_joined_body(base: Seq<char>, name: Seq<char>)
    requires
        base.len() > 0,
        !is_absolute(name),
    ensures
        components(joined(base, name)) == components(base) + body_components(name),
{
    if base.last() == '/' {
        let a = base.drop_last();
        assert(base =~= a + seq!['/']);
        assert(base + name =~= a + seq!['/'] + name);
        lemma_components_behind_separator(a, name);
    } else {
        lemma_components_behind_separator(base, name);
        lemma_trailing_separator(base);
    }
}

/// A relative name adjoined to a base lies below the base: the components of
/// the joined path are those of the base, followed by those of the name.
pub proof fn lemma_joined_components(base: Seq<char>, name: Seq<char>)
    requires
        !is_absolute(name),
        !starts_with_cur_dir(name),
    ensures
        components(joined(base, name)) == components(base) + components(name),
{
    if base.len() == 0 {
        assert(base + name =~= name);
        assert(Seq::<Component>::empty() + components(name) =~= components(name));
    } else {
        lemma_joined_body(base, name);
    }
}

/// The segments of a path contribute ordinary names and parents, nothing else.
proof fn lemma_body_kinds(p: Seq<char>)
    ensures
        forall|i: int|
            0 <= i < body_components(p).len() ==> (#[trigger] body_components(p)[i] is Normal)
                || body_components(p)[i] is ParentDir,
    decreases p.len(),
{
    if p.len() > 0 {
        let k = first_separator(p);
        if 0 <= k < p.len() {
            lemma_body_kinds(p.skip(k + 1));
            let head = segment_components(p.take(k));
            let rest = body_components(p.skip(k + 1));
            assert forall|i: int| 0 <= i < body_components(p).len() implies (
            #[trigger] body_components(p)[i] is Normal) || body_components(p)[i] is ParentDir by {
                if i >= head.len() {
                    assert(body_components(p)[i] == rest[i - head.len()]);
                }
            }
        }
    }
}

/// A `.` at the front of a path contributes nothing as a segment.
proof fn lemma_body_behind_cur_dir(p: Seq<char>)
    requires
        starts_with_cur_dir(p),
    ensures
        body_components(p) == body_components(p.skip(1)),
{
    let rest = p.skip(1);
    lemma_first_separator(p, 1);
    assert(p.take(1) =~= dot());
    if p.len() == 1 {
        assert(p =~= dot());
        assert(rest.len() == 0);
    } else {
        assert(rest[0] == '/');
        lemma_first_separator(rest, 0);
        assert(rest.take(0) =~= Seq::<char>::empty());
        assert(rest.skip(1) =~= p.skip(2));
        assert(Seq::<Component>::empty() + body_components(p.skip(2)) =~= body_components(
            p.skip(2),
        ));
    }
}

/// An entry that stays below is unpacked below the target: adjoined to a
/// target directory, its path has the components of the target, followed
/// by ordinary names only.
pub proof fn lemma_entry_stays_below(target: Seq<char>, entry: Seq<char>)
    requires
        target.len() > 0,
        stays_below(entry),
    ensures
        components(joined(target, entry)).len() >= components(target).len(),
        components(joined(target, entry)).take(components(target).len() as int) == components(
            target,
        ),
        forall|i: int|
            components(target).len() <= i < components(joined(target, entry)).len() ==> (
            #[trigger] components(joined(target, entry))[i]) is Normal,
{
    if is_absolute(entry) {
        assert(components(entry)[0] is RootDir);
    }
    let tail = body_components(entry);
    let whole = components(joined(target, entry));
    lemma_joined_body(target, entry);
    lemma_body_kinds(entry);
    assert(whole.take(components(target).len() as int) =~= components(target));
    assert forall|i: int| components(target).len() <= i < whole.len() implies (
    #[trigger] whole[i]) is Normal by {
        let j = i - components(target).len();
        assert(whole[i] == tail[j]);
        if starts_with_cur_dir(entry) {
            lemma_body_behind_cur_dir(entry);
            assert(components(entry)[j + 1] == tail[j]);
        } else {
            assert(components(entry)[j] == tail[j]);
        }
    }
}

/// A single name adjoined to a base is a direct child of the base: the joined
/// path has the components of the base and then one ordinary name.
pub proof fn lemma_single_name_joined(base: Seq<char>, name: Seq<char>)
    requires
        is_single_name(name),
    ensures
        components(joined(base, name)) == components(base).push(Component::Normal(name)),
        components(joined(base, name)).len() == components(base).len() + 1,
        components(joined(base, name)).take(components(base).len() as int) == components(base),
        components(joined(base, name)).last() is Normal,
{
    lemma_single_name_is_one_component(name);
    lemma_joined_components(base, name);
    assert(components(base) + seq![Component::Normal(name)] =~= components(base).push(
        Component::Normal(name),
    ));
    assert((components(base) + components(name)).take(components(base).len() as int)
        =~= components(base));
}

/// What the segment `chars[from..to]` contributes, appended to `parts`.
fn push_segment(parts: &mut Vec<PathComponent>, chars: &Vec<char>, from: usize, to: usize)
    requires
        from <= to <= chars.len(),
    ensures
        views_of(final(parts)@) == views_of(old(parts)@) + segment_components(
            chars@.subrange(from as int, to as int),
        ),
{
    let ghost segment = chars@.subrange(from as int, to as int);
    let ghost before = views_of(parts@);
    let len = to - from;
    if len == 0 {
        assert(before + Seq::<Component>::empty() =~= before);
    } else if len == 1 && chars[from] == '.' {
        assert(segment =~= dot());
        assert(before + Seq::<Component>::empty() =~= before);
    } else if len == 2 && chars[from] == '.' && chars[from + 1] == '.' {
        assert(segment =~= dot_dot());
        assert(segment != dot());
        parts.push(PathComponent::ParentDir);
        assert(views_of(parts@) =~= before + seq![Component::ParentDir]);
    } else {
        assert(segment != dot()) by {
            if segment == dot() {
                assert(segment.len() == 1 && segment[0] == '.');
            }
        }
        assert(segment != dot_dot()) by {
            if segment == dot_dot() {
                assert(segment.len() == 2 && segment[0] == '.' && segment[1] == '.');
            }
        }
        let name = string_of_range(chars, from, to);
        parts.push(PathComponent::Normal(name));
        assert(views_of(parts@) =~= before + seq![Component::Normal(segment)]);
    }
}

/// The components of a path, in order.
pub fn parse_components(path: &str) -> (parts: Vec<PathComponent>)
    ensures
        views_of(parts@) == components(path@),
{
    let chars = chars_of(path);
    let n = chars.len();
    let mut parts: Vec<PathComponent> = Vec::new();
    let mut start: usize = 0;
    if n > 0 && chars[0] == '/' {
        parts.push(PathComponent::RootDir);
        start = 1;
        assert(views_of(parts@) =~= seq![Component::RootDir]);
    } else if n > 0 && chars[0] == '.' && (n == 1 || chars[1] == '/') {
        parts.push(PathComponent::CurDir);
        start = 1;
        assert(views_of(parts@) =~= seq![Component::CurDir]);
    } else {
        assert(views_of(parts@) =~= Seq::<Component>::empty());
        assert(chars@.skip(0) =~= chars@);
        assert(Seq::<Component>::empty() + body_components(chars@) =~= body_components(chars@));
    }
    let mut done = false;
    while !done
        invariant
            start <= n,
            n == chars.len(),
            chars@ == path@,
            !done ==> views_of(parts@) + body_components(chars@.skip(start as int))
                == components(path@),
            done ==> views_of(parts@) == components(path@),
        decreases n - start + (if done { 0int } else { 1int }),
    {
        let ghost rest = chars@.skip(start as int);
        let ghost before = views_of(parts@);
        if start == n {
            proof {
                assert(rest.len() == 0);
                assert(before + Seq::<Component>::empty() =~= before);
            }
            done = true;
        } else {
            let mut end: usize = start;
            while end < n && chars[end] != '/'
                invariant
                    start <= end <= n,
                    n == chars.len(),
                    forall|j: int| start <= j < end ==> chars@[j] != '/',
                decreases n - end,
            {
                end += 1;
            }
            proof {
                assert forall|j: int| 0 <= j < end - start implies rest[j] != '/' by {
                    assert(rest[j] == chars@[start + j]);
                }
                if end < n {
                    assert(rest[end - start] == chars@[end as int]);
                }
                lemma_first_separator(rest, end - start);
                assert(rest.take(end - start) =~= chars@.subrange(start as int, end as int));
                if end < n {
                    assert(rest.skip(end - start + 1) =~= chars@.skip(end + 1));
                } else {
                    assert(rest =~= chars@.subrange(start as int, end as int));
                }
            }
            push_segment(&mut parts, &chars, start, end);
            proof {
                let seg = segment_components(chars@.subrange(start as int, end as int));
                if end < n {
                    assert(before + seg + body_components(chars@.skip(end + 1)) =~= before + (seg
                        + body_components(chars@.skip(end + 1))));
                }
            }
            if end < n {
                start = end + 1;
            } else {
                done = true;
            }
        }
    }
    parts
}

/// Accepts a name that is one single ordinary name and refuses every other
/// path as invalid, naming it in the error: the empty path, a path with a
/// separator in it, `.` and `..`.
pub fn path_is_valid(path: &str) -> (r: Result<(), HubError>)
    ensures
        r is Ok <==> is_single_name(path@),
        r matches Err(e) ==> e@ == HubErrorView::InvalidPath(path@),
{
    let chars = chars_of(path);
    let n = chars.len();
    if n == 0 {
        return Err(HubError::InvalidPath(path.to_owned()));
    }
    let mut i: usize = 0;
    while i < n
        invariant
            i <= n,
            n == chars.len(),
            chars@ == path@,
            forall|j: int| 0 <= j < i ==> chars@[j] != '/',
        decreases n - i,
    {
        if chars[i] == '/' {
            return Err(HubError::InvalidPath(path.to_owned()));
        }
        i += 1;
    }
    if n == 1 && chars[0] == '.' {
        assert(chars@ =~= dot());
        return Err(HubError::InvalidPath(path.to_owned()));
    }
    if n == 2 && chars[0] == '.' && chars[1] == '.' {
        assert(chars@ =~= dot_dot());
        return Err(HubError::InvalidPath(path.to_owned()));
    }
    assert(chars@ != dot()) by {
        if chars@ == dot() {
            assert(chars@.len() == 1 && chars@[0] == '.');
        }
    }
    assert(chars@ != dot_dot()) by {
        if chars@ == dot_dot() {
            assert(chars@.len() == 2 && chars@[0] == '.' && chars@[1] == '.');
        }
    }
    Ok(())
}

/// Accepts the path of an entry inside an archive where unpacking it cannot
/// leave the target directory: the path is not absolute and never steps to a
/// parent. Every other path is refused as invalid.
pub fn entry_path_is_safe(path: &str) -> (r: Result<(), HubError>)
    ensures
        r is Ok <==> stays_below(path@),
        r matches Err(e) ==> e@ == HubErrorView::InvalidPath(path@),
{
    let parts = parse_components(path);
    let mut i: usize = 0;
    while i < parts.len()
        invariant
            i <= parts.len(),
            views_of(parts@) == components(path@),
            forall|j: int|
                0 <= j < i ==> !(#[trigger] components(path@)[j] is RootDir) && !(components(
                    path@,
                )[j] is ParentDir),
        decreases parts.len() - i,
    {
        assert(views_of(parts@)[i as int] == parts@[i as int]@);
        match &parts[i] {
            PathComponent::RootDir | PathComponent::ParentDir => {
                return Err(HubError::InvalidPath(path.to_owned()));
            },
            _ => {},
        }
        i += 1;
    }
    assert(views_of(parts@).len() == parts@.len());
    Ok(())
}

/// `base` with `name` adjoined.
pub fn join(base: &str, name: &str) -> (path: String)
    ensures
        path@ == joined(base@, name@),
{
    let b = chars_of(base);
    let n = chars_of(name);
    if n.len() > 0 && n[0] == '/' {
        return name.to_owned();
    }
    let mut path = base.to_owned();
    if b.len() > 0 && b[b.len() - 1] != '/' {
        path.push('/');
    }
    path.append(name);
    path
}

} // verus!
