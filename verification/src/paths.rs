//! Paths as texts: what std reads in them.
//!
//! Where names are parted depends on the platform: a slash parts them everywhere, and on
//! Windows a backslash does so too, a letter and a colon name a drive, and two separators at
//! the beginning a server. What is said here of a path holds on Unix and on Windows alike.

use vstd::prelude::*;

use crate::text;

verus! {

/// Whether `c` parts names on some platform.
pub open spec fn is_separator(c: char) -> bool {
    c == '/' || c == '\\'
}

/// Whether a path begins with two separators, by which Windows knows a server or a device.
pub open spec fn two_separators(path: Seq<char>) -> bool {
    path.len() > 1 && is_separator(path[0]) && is_separator(path[1])
}

/// Whether `name` is one name on every platform.
pub open spec fn plain_name(name: Seq<char>) -> bool {
    &&& name.len() > 0
    &&& !name.contains('/') && !name.contains('\\') && !name.contains(':')
}

/// Whether `s` is nothing but slashes, and points that do not stand together: steps that
/// stay where they are.
pub open spec fn is_idle(s: Seq<char>) -> bool {
    &&& forall|i: int| 0 <= i < s.len() ==> #[trigger] s[i] == '/' || s[i] == '.'
    &&& forall|i: int| 0 < i < s.len() ==> !(#[trigger] s[i] == '.' && s[i - 1] == '.')
}

/// Whether `tail` may follow the last name of a path: it goes nowhere.
pub open spec fn is_tail(tail: Seq<char>) -> bool {
    is_idle(tail) && (tail.len() > 0 ==> tail[0] == '/')
}

/// Whether a path goes nowhere from where it begins, so that it names no file.
pub open spec fn names_no_file(path: Seq<char>) -> bool {
    is_idle(path) && !two_separators(path)
}

/// Whether the last name of `path` is `name`, behind `front` and before `tail`; the name
/// `..` is a step upwards.
pub open spec fn ends_in_name(
    path: Seq<char>,
    front: Seq<char>,
    name: Seq<char>,
    tail: Seq<char>,
) -> bool {
    &&& path == front + name + tail
    &&& front.len() > 0 ==> front.last() == '/'
    &&& plain_name(name) && name != seq!['.']
    &&& is_tail(tail)
    &&& !two_separators(path)
}

/// Whether a path that is read up to behind `front` and a point reads `..` there.
pub open spec fn only_steps_up(front: Seq<char>) -> bool {
    front.last() == '.' && (front.len() == 1 || is_separator(front[front.len() - 2])
        || front[front.len() - 2] == ':')
}

/// Whether the last name of `path` ends in a point and the suffix `ext`, which stand behind
/// `front` and before `tail`.
pub open spec fn ends_in_suffix(
    path: Seq<char>,
    front: Seq<char>,
    ext: Seq<char>,
    tail: Seq<char>,
) -> bool {
    &&& path == front + seq!['.'] + ext + tail
    &&& front.len() > 0 && !is_separator(front.last()) && front.last() != ':'
    &&& ext.len() > 0 || !only_steps_up(front)
    &&& !ext.contains('.') && !ext.contains('/') && !ext.contains('\\')
    &&& is_tail(tail)
    &&& !two_separators(path)
}

/// Whether the last name of `path` is `name` and has no suffix: it is a step upwards, or no
/// point stands in it, or only one at its beginning.
pub open spec fn ends_without_suffix(
    path: Seq<char>,
    front: Seq<char>,
    name: Seq<char>,
    tail: Seq<char>,
) -> bool {
    &&& ends_in_name(path, front, name, tail)
    &&& name == seq!['.', '.'] || !name.skip(1).contains('.')
}

/// What holds of the suffix `r` of `path`.
pub open spec fn extension_fits(path: Seq<char>, r: Option<Seq<char>>) -> bool {
    &&& r matches Some(ext) ==> text::has_part(path, "."@ + ext)
    &&& !path.contains('.') ==> r is None
    &&& names_no_file(path) ==> r is None
    &&& forall|front: Seq<char>, ext: Seq<char>, tail: Seq<char>| #[trigger]
        ends_in_suffix(path, front, ext, tail) ==> r == Some(ext)
    &&& forall|front: Seq<char>, name: Seq<char>, tail: Seq<char>| #[trigger]
        ends_without_suffix(path, front, name, tail) ==> r is None
}

/// `std::path::Path::extension`: what stands behind the last point of a path's last name,
/// unless that name has no point or begins with its only one. The path's last name is its
/// last one but for steps that stay where they are. Left open is what only one platform
/// reads in a path: where its end is parted by a backslash, where a colon stands before the
/// last name's point, and where the path begins with two separators.
#[verifier::external_body]
pub(crate) fn path_extension(path: &str) -> (r: Option<String>)
    ensures
        extension_fits(path@, text::opt_text(r)),
{
    std::path::Path::new(path).extension().and_then(|e| e.to_str()).map(|e| e.to_owned())
}

/// What holds of the last name `r` of `path`.
pub open spec fn file_name_fits(path: Seq<char>, r: Option<Seq<char>>) -> bool {
    &&& r matches Some(name) ==> name.len() > 0 && !name.contains('/') && text::has_part(
        path,
        name,
    )
    &&& names_no_file(path) ==> r is None
    &&& forall|front: Seq<char>, name: Seq<char>, tail: Seq<char>| #[trigger]
        ends_in_name(path, front, name, tail) ==> r == (if name == seq!['.', '.'] {
            None
        } else {
            Some(name)
        })
}

/// `std::path::Path::file_name`: the last name of a path, unless it is a step upwards or
/// there is none. Left open is what only one platform reads in a path: backslashes and
/// colons in its end, and two separators at its beginning.
#[verifier::external_body]
pub(crate) fn path_file_name(path: &str) -> (r: Option<String>)
    ensures
        file_name_fits(path@, text::opt_text(r)),
{
    std::path::Path::new(path).file_name().and_then(|n| n.to_str()).map(|n| n.to_owned())
}

/// Whether `name` is `stem`, a point and a suffix.
pub open spec fn has_stem(name: Seq<char>, stem: Seq<char>, ext: Seq<char>) -> bool {
    &&& name == stem + seq!['.'] + ext
    &&& name != seq!['.', '.']
    &&& stem.len() > 0
    &&& !ext.contains('.')
}

/// What holds of the last name `r` of `path` without its suffix.
pub open spec fn stem_fits(path: Seq<char>, r: Option<Seq<char>>) -> bool {
    forall|front: Seq<char>, name: Seq<char>, tail: Seq<char>, stem: Seq<char>, ext: Seq<char>|
        #[trigger] ends_in_name(path, front, name, tail) && #[trigger] has_stem(name, stem, ext)
            ==> r == Some(stem)
}

/// `std::path::Path::file_stem`: what stands before the last point of a path's last name.
/// Left open are names without a suffix, and what only one platform reads in a path.
#[verifier::external_body]
pub(crate) fn path_stem(path: &str) -> (r: Option<String>)
    ensures
        stem_fits(path@, text::opt_text(r)),
{
    std::path::Path::new(path).file_stem().and_then(|s| s.to_str()).map(|s| s.to_owned())
}

/// Whether `dir` is the directory that `front` leads into, and is written without detours at
/// its end.
pub open spec fn leads_into(front: Seq<char>, dir: Seq<char>) -> bool {
    &&& front == dir + seq!['/']
    &&& dir.len() > 0
    &&& !is_separator(dir.last()) && dir.last() != ':' && dir.last() != '.'
}

/// What holds of the directory `r` of `path`.
pub open spec fn parent_fits(path: Seq<char>, r: Option<Seq<char>>) -> bool {
    &&& r matches Some(dir) ==> dir.len() < path.len() && text::has_head(path, dir)
    &&& path.len() == 0 || path == seq!['/'] ==> r is None
    &&& forall|front: Seq<char>, name: Seq<char>, tail: Seq<char>| #[trigger]
        ends_in_name(path, front, name, tail) ==> {
            &&& r is Some
            &&& front.len() == 0 ==> r == Some(Seq::<char>::empty())
            &&& front == seq!['/'] ==> r == Some(seq!['/'])
            &&& forall|dir: Seq<char>| #[trigger] leads_into(front, dir) ==> r == Some(dir)
        }
}

/// `std::path::Path::parent`: a path without its last part; nothing where it ends in a root
/// or is empty. Left open are detours at the end of the directory, and what only one
/// platform reads in a path.
#[verifier::external_body]
pub(crate) fn path_parent(path: &str) -> (r: Option<String>)
    ensures
        parent_fits(path@, text::opt_text(r)),
{
    std::path::Path::new(path).parent().and_then(|p| p.to_str()).map(|p| p.to_owned())
}

/// What holds of the path `r` of the name `name` in the directory `base`.
pub open spec fn join_fits(base: Seq<char>, name: Seq<char>, r: Seq<char>) -> bool {
    plain_name(name) && !two_separators(base) ==> {
        &&& base.len() == 0 ==> r == name
        &&& base.len() > 0 && base.last() == '/' ==> r == base + name
        &&& base.len() > 0 && !is_separator(base.last()) && base.last() != ':' ==> {
            ||| r == base + seq!['/'] + name
            ||| r == base + seq!['\\'] + name
        }
    }
}

/// `std::path::Path::join`: a name in a directory, with the platform's separator between
/// them where the directory does not end in one. Left open is what becomes of a name that
/// is more than one on some platform, of a directory that begins with two separators, and of
/// one that ends in a backslash or a colon.
#[verifier::external_body]
pub(crate) fn path_join(base: &str, name: &str) -> (r: String)
    ensures
        join_fits(base@, name@, r@),
{
    std::path::Path::new(base).join(name).to_string_lossy().into_owned()
}

/// Whether `path` is absolute on some platform.
pub open spec fn may_be_absolute(path: Seq<char>) -> bool {
    ||| path.len() > 0 && path[0] == '/'
    ||| two_separators(path)
    ||| path.len() > 2 && path[1] == ':' && is_separator(path[2])
}

/// What holds of whether `path` is absolute.
pub open spec fn absolute_fits(path: Seq<char>, r: bool) -> bool {
    r ==> may_be_absolute(path)
}

/// `std::path::Path::is_absolute`: on Unix a path is absolute that begins with a slash, and
/// on Windows one that names a drive or a server and goes on from its root. Which of the two
/// counts is left open.
#[verifier::external_body]
pub(crate) fn path_is_absolute(path: &str) -> (r: bool)
    ensures
        absolute_fits(path@, r),
{
    std::path::Path::new(path).is_absolute()
}

/// A part of a path.
#[derive(Debug)]
pub enum PathPart {
    /// A drive, a server or a device.
    Prefix,
    /// The root.
    Root,
    /// A step that stays where it is.
    Current,
    /// A step upwards.
    Parent,
    /// A name.
    Name,
}

/// Whether the part of a path at `at` is `..`, between slashes or an end of the path.
pub open spec fn upward_part_at(path: Seq<char>, at: int) -> bool {
    &&& 0 <= at
    &&& at + 2 <= path.len()
    &&& path[at] == '.' && path[at + 1] == '.'
    &&& at == 0 || path[at - 1] == '/'
    &&& at + 2 == path.len() || path[at + 2] == '/'
}

/// Whether a path leads upwards on every platform: it has a part `..` between slashes, no
/// backslash, and does not begin with two separators.
pub open spec fn text_leads_upwards(path: Seq<char>) -> bool {
    !path.contains('\\') && !two_separators(path) && exists|at: int| upward_part_at(path, at)
}

/// Whether a step upwards is among the parts of a path.
pub open spec fn steps_up(parts: Seq<PathPart>) -> bool {
    exists|i: int| 0 <= i < parts.len() && #[trigger] parts[i] is Parent
}

/// What holds of whether `path` has a step upwards.
pub open spec fn upward_fits(path: Seq<char>, r: bool) -> bool {
    &&& text_leads_upwards(path) ==> r
    &&& !text::has_part(path, ".."@) ==> !r
}

/// `std::path::Path::components`: the parts of a path. A part `..` between slashes is a step
/// upwards, and there is none without these two points; what else the parts are is left
/// open.
#[verifier::external_body]
pub(crate) fn path_parts(path: &str) -> (r: Vec<PathPart>)
    ensures
        upward_fits(path@, steps_up(r@)),
{
    std::path::Path::new(path).components().map(
        |c|
            match c {
                std::path::Component::Prefix(_) => PathPart::Prefix,
                std::path::Component::RootDir => PathPart::Root,
                std::path::Component::CurDir => PathPart::Current,
                std::path::Component::ParentDir => PathPart::Parent,
                std::path::Component::Normal(_) => PathPart::Name,
            },
    ).collect()
}

/// Whether a path has a step upwards.
pub fn has_parent_step(path: &str) -> (r: bool)
    ensures
        upward_fits(path@, r),
{
    let parts = path_parts(path);
    let mut i: usize = 0;
    while i < parts.len()
        invariant
            i <= parts@.len(),
            upward_fits(path@, steps_up(parts@)),
            forall|k: int| 0 <= k < i ==> !(#[trigger] parts@[k] is Parent),
        decreases parts@.len() - i,
    {
        if let PathPart::Parent = parts[i] {
            assert(parts@[i as int] is Parent);
            return true;
        }
        i = i + 1;
    }
    false
}

/// The directory of a path.
pub fn directory_of(path: &str) -> (r: Option<String>)
    ensures
        parent_fits(path@, text::opt_text(r)),
{
    path_parent(path)
}

/// However a path goes on before and behind it, a part `..` between slashes leads upwards.
pub proof fn law_upward_parts_lead_upwards(head: Seq<char>, tail: Seq<char>)
    requires
        !head.contains('\\'),
        !tail.contains('\\'),
        head.len() == 0 || head.last() == '/',
        tail.len() == 0 || tail[0] == '/',
        !two_separators(head + seq!['.', '.'] + tail),
    ensures
        text_leads_upwards(head + seq!['.', '.'] + tail),
{
    let path = head + seq!['.', '.'] + tail;
    assert(upward_part_at(path, head.len() as int));
    assert(!path.contains('\\')) by {
        if path.contains('\\') {
            let i = choose|i: int| 0 <= i < path.len() && path[i] == '\\';
            if i < head.len() {
                assert(head[i] == '\\');
            } else if i >= head.len() + 2 {
                assert(tail[i - head.len() - 2] == '\\');
            }
        }
    }
}

proof fn lemma_last_name(head: Seq<char>, tail: Seq<char>)
    requires
        is_tail(tail),
        !head.contains('\\'),
        !head.contains(':'),
        !two_separators(head + tail),
    ensures
        names_no_file(head + tail) || exists|front: Seq<char>, name: Seq<char>, rest: Seq<char>|
            #[trigger] ends_in_name(head + tail, front, name, rest),
    decreases head.len(),
{
    let path = head + tail;
    if head.len() == 0 {
        assert(path =~= tail);
    } else if head.last() == '/' {
        let more = seq!['/'] + tail;
        assert(head.drop_last() + more =~= path);
        assert(is_tail(more)) by {
            assert forall|i: int| 0 <= i < more.len() implies #[trigger] more[i] == '/' || more[i]
                == '.' by {
                if i > 0 {
                    assert(more[i] == tail[i - 1]);
                }
            }
            assert forall|i: int| 0 < i < more.len() implies !(#[trigger] more[i] == '.' && more[i
                - 1] == '.') by {
                if i > 1 {
                    assert(more[i] == tail[i - 1] && more[i - 1] == tail[i - 2]);
                }
            }
        }
        lemma_kept_out(head);
        lemma_last_name(head.drop_last(), more);
    } else {
        let k = name_start(head);
        lemma_name_start(head);
        let front = head.take(k);
        let name = head.skip(k);
        assert(front + name + tail =~= path);
        if name == seq!['.'] {
            assert(name.len() == 1 && name[0] == '.');
            assert(head.len() == k + 1 && head[k] == '.');
            if k == 0 {
                assert(is_idle(path)) by {
                    assert forall|i: int| 0 <= i < path.len() implies #[trigger] path[i] == '/'
                        || path[i] == '.' by {
                        if i > 0 {
                            assert(path[i] == tail[i - 1]);
                        }
                    }
                    assert forall|i: int| 0 < i < path.len() implies !(#[trigger] path[i] == '.'
                        && path[i - 1] == '.') by {
                        assert(path[i] == tail[i - 1]);
                        if i > 1 {
                            assert(path[i - 1] == tail[i - 2]);
                        }
                    }
                }
            } else {
                let more = seq!['.'] + tail;
                let rest = seq!['/'] + more;
                assert(front.last() == '/');
                assert(front.drop_last() + rest =~= path);
                assert(is_tail(rest)) by {
                    assert forall|i: int| 0 <= i < rest.len() implies #[trigger] rest[i] == '/'
                        || rest[i] == '.' by {
                        if i > 1 {
                            assert(rest[i] == tail[i - 2]);
                        }
                    }
                    assert forall|i: int| 0 < i < rest.len() implies !(#[trigger] rest[i] == '.'
                        && rest[i - 1] == '.') by {
                        if i > 1 {
                            assert(rest[i] == tail[i - 2]);
                            if i > 2 {
                                assert(rest[i - 1] == tail[i - 3]);
                            }
                        }
                    }
                }
                assert(front.drop_last() =~= head.take(k - 1));
                assert forall|c: char| !head.contains(c) implies !#[trigger] head.take(
                    k - 1,
                ).contains(c) by {
                    if head.take(k - 1).contains(c) {
                        let cut = head.take(k - 1);
                        let i = choose|i: int| 0 <= i < cut.len() && cut[i] == c;
                        assert(head[i] == c);
                    }
                }
                lemma_last_name(front.drop_last(), rest);
            }
        } else {
            assert(plain_name(name)) by {
                assert forall|c: char| !head.contains(c) implies !#[trigger] name.contains(c) by {
                    if name.contains(c) {
                        let i = choose|i: int| 0 <= i < name.len() && name[i] == c;
                        assert(head[k + i] == c);
                    }
                }
                if name.contains('/') {
                    let i = choose|i: int| 0 <= i < name.len() && name[i] == '/';
                    assert(head[k + i] == '/');
                }
            }
            assert(ends_in_name(path, front, name, tail));
        }
    }
}

proof fn lemma_kept_out(s: Seq<char>)
    requires
        s.len() > 0,
    ensures
        forall|c: char| !s.contains(c) ==> !#[trigger] s.drop_last().contains(c),
{
    assert forall|c: char| !s.contains(c) implies !#[trigger] s.drop_last().contains(c) by {
        if s.drop_last().contains(c) {
            let i = choose|i: int| 0 <= i < s.drop_last().len() && s.drop_last()[i] == c;
            assert(s[i] == c);
        }
    }
}

/// Where the text behind the last slash of `s` begins.
spec fn name_start(s: Seq<char>) -> int
    decreases s.len(),
{
    if s.len() == 0 {
        0
    } else if s.last() == '/' {
        s.len() as int
    } else {
        name_start(s.drop_last())
    }
}

proof fn lemma_name_start(s: Seq<char>)
    ensures
        0 <= name_start(s) <= s.len(),
        name_start(s) > 0 ==> s[name_start(s) - 1] == '/',
        forall|i: int| name_start(s) <= i < s.len() ==> #[trigger] s[i] != '/',
        s.len() > 0 && s.last() != '/' ==> name_start(s) < s.len(),
    decreases s.len(),
{
    if s.len() > 0 && s.last() != '/' {
        lemma_name_start(s.drop_last());
        assert forall|i: int| name_start(s) <= i < s.len() implies #[trigger] s[i] != '/' by {
            if i < s.len() - 1 {
                assert(s[i] == s.drop_last()[i]);
            }
        }
    }
}

/// Where the last point of `s` stands, where there is one.
spec fn last_point(s: Seq<char>) -> Option<int>
    decreases s.len(),
{
    if s.len() == 0 {
        None
    } else if s.last() == '.' {
        Some(s.len() - 1)
    } else {
        last_point(s.drop_last())
    }
}

proof fn lemma_last_point(s: Seq<char>)
    ensures
        match last_point(s) {
            Some(j) => 0 <= j < s.len() && s[j] == '.' && forall|i: int|
                j < i < s.len() ==> #[trigger] s[i] != '.',
            None => forall|i: int| 0 <= i < s.len() ==> #[trigger] s[i] != '.',
        },
    decreases s.len(),
{
    if s.len() > 0 && s.last() != '.' {
        lemma_last_point(s.drop_last());
        match last_point(s) {
            Some(j) => {
                assert forall|i: int| j < i < s.len() implies #[trigger] s[i] != '.' by {
                    if i < s.len() - 1 {
                        assert(s[i] == s.drop_last()[i]);
                    }
                }
            },
            None => {
                assert forall|i: int| 0 <= i < s.len() implies #[trigger] s[i] != '.' by {
                    if i < s.len() - 1 {
                        assert(s[i] == s.drop_last()[i]);
                    }
                }
            },
        }
    }
}

/// Every path without a backslash, a colon and two separators at its beginning is read in
/// one way on every platform: it names no file, or its last name ends in a suffix, or it has
/// none.
pub proof fn law_plain_paths_are_read(path: Seq<char>)
    requires
        !path.contains('\\'),
        !path.contains(':'),
        !two_separators(path),
    ensures
        names_no_file(path) || (exists|front: Seq<char>, ext: Seq<char>, tail: Seq<char>|
            #[trigger] ends_in_suffix(path, front, ext, tail)) || (exists|
            front: Seq<char>,
            name: Seq<char>,
            tail: Seq<char>,
        | #[trigger]
            ends_without_suffix(path, front, name, tail)),
{
    let none = Seq::<char>::empty();
    assert(path + none =~= path);
    lemma_last_name(path, none);
    if !names_no_file(path) {
        let (front, name, tail) = choose|front: Seq<char>, name: Seq<char>, tail: Seq<char>|
            #[trigger] ends_in_name(path, front, name, tail);
        lemma_last_point(name);
        let at = last_point(name);
        if at is None || at == Some(0int) || name == seq!['.', '.'] {
            if name.skip(1).contains('.') && name != seq!['.', '.'] {
                let i = choose|i: int| 0 <= i < name.skip(1).len() && name.skip(1)[i] == '.';
                assert(name[i + 1] == '.');
            }
            assert(ends_without_suffix(path, front, name, tail));
        } else {
            let j = at->0;
            let stem = front + name.take(j);
            let ext = name.skip(j + 1);
            assert(name =~= name.take(j) + seq!['.'] + ext);
            assert(path =~= stem + seq!['.'] + ext + tail);
            assert(stem.last() == name[j - 1]);
            assert forall|c: char| !name.contains(c) implies !#[trigger] ext.contains(c) by {
                if ext.contains(c) {
                    let i = choose|i: int| 0 <= i < ext.len() && ext[i] == c;
                    assert(name[j + 1 + i] == c);
                }
            }
            assert(name.contains(name[j - 1]));
            if ext.contains('.') {
                let i = choose|i: int| 0 <= i < ext.len() && ext[i] == '.';
                assert(name[j + 1 + i] == '.');
            }
            if ext.len() == 0 && only_steps_up(stem) {
                if j == 1 {
                    assert(name =~= seq!['.', '.']);
                } else {
                    assert(stem[stem.len() - 2] == name[j - 2]);
                    assert(name.contains(name[j - 2]));
                }
            }
            assert(ends_in_suffix(path, stem, ext, tail));
        }
    }
}

proof fn lemma_points_of_tails(path: Seq<char>, head: int, tail: Seq<char>, at: int)
    requires
        0 <= head <= at < path.len(),
        path.skip(head) == tail,
        is_tail(tail),
        path[at] == '.',
    ensures
        at > head,
        path[at - 1] == '/',
{
    assert(tail[at - head] == '.');
    assert(tail[at - head - 1] == path[at - 1]);
}

/// No path ends in two suffixes, and one that ends in a suffix, even an empty one, neither
/// has a last name without one nor names no file.
pub proof fn law_paths_have_one_reading(
    path: Seq<char>,
    front: Seq<char>,
    ext: Seq<char>,
    tail: Seq<char>,
)
    requires
        ends_in_suffix(path, front, ext, tail),
    ensures
        !names_no_file(path),
        forall|f: Seq<char>, e: Seq<char>, t: Seq<char>| #[trigger]
            ends_in_suffix(path, f, e, t) ==> e == ext,
        forall|f: Seq<char>, n: Seq<char>, t: Seq<char>| !#[trigger]
            ends_without_suffix(path, f, n, t),
{
    let p = front.len() as int;
    assert(path[p] == '.' && path[p - 1] == front.last());
    assert forall|f: Seq<char>, e: Seq<char>, t: Seq<char>| #[trigger]
        ends_in_suffix(path, f, e, t) implies e == ext by {
        if f.len() < front.len() {
            lemma_later_point(path, f, e, t, front);
        } else if front.len() < f.len() {
            lemma_later_point(path, front, ext, tail, f);
        } else {
            assert(path.skip((f.len() + 1) as int) =~= ext + tail);
            lemma_same_ext(path, f, e, t, ext, tail);
        }
    }
    assert forall|f: Seq<char>, n: Seq<char>, t: Seq<char>| !#[trigger]
        ends_without_suffix(path, f, n, t) by {
        if ends_without_suffix(path, f, n, t) {
            lemma_suffix_or_none(path, front, ext, tail, f, n, t);
        }
    }
}

proof fn lemma_later_point(
    path: Seq<char>,
    f: Seq<char>,
    e: Seq<char>,
    t: Seq<char>,
    later: Seq<char>,
)
    requires
        path == f + seq!['.'] + e + t,
        !e.contains('.'),
        is_tail(t),
        f.len() < later.len() < path.len(),
        path[later.len() as int] == '.',
    ensures
        path[later.len() - 1] == '/',
{
    let at = later.len() as int;
    let head = f.len() + 1 + e.len();
    if at < head {
        assert(e[at - f.len() - 1] == path[at]);
        assert(e.contains('.'));
    } else {
        assert(path.skip(head as int) =~= t);
        lemma_points_of_tails(path, head as int, t, at);
    }
}

proof fn lemma_same_ext(
    path: Seq<char>,
    f: Seq<char>,
    e: Seq<char>,
    t: Seq<char>,
    ext: Seq<char>,
    tail: Seq<char>,
)
    requires
        path == f + seq!['.'] + e + t,
        path.skip((f.len() + 1) as int) == ext + tail,
        !e.contains('/'),
        !ext.contains('/'),
        is_tail(t),
        is_tail(tail),
    ensures
        e == ext,
{
    let rest = path.skip((f.len() + 1) as int);
    assert(rest =~= e + t);
    if e.len() < ext.len() {
        assert(rest[e.len() as int] == t[0]);
        assert(ext[e.len() as int] == '/');
        assert(ext.contains('/'));
    } else if ext.len() < e.len() {
        assert(rest[ext.len() as int] == tail[0]);
        assert(e[ext.len() as int] == '/');
        assert(e.contains('/'));
    } else {
        assert(rest.take(e.len() as int) =~= e);
        assert(rest.take(e.len() as int) =~= ext);
    }
}

proof fn lemma_suffix_or_none(
    path: Seq<char>,
    front: Seq<char>,
    ext: Seq<char>,
    tail: Seq<char>,
    f: Seq<char>,
    n: Seq<char>,
    t: Seq<char>,
)
    requires
        ends_in_suffix(path, front, ext, tail),
        ends_in_name(path, f, n, t),
    ensures
        n != seq!['.', '.'] && n.skip(1).contains('.'),
{
    let p = front.len() as int;
    let a = f.len() as int;
    let b = a + n.len();
    assert(path[p] == '.' && path[p - 1] == front.last());
    assert(path.skip(b) =~= t);
    if p >= b {
        lemma_points_of_tails(path, b, t, p);
    } else if p < a {
        assert(path[a - 1] == f.last());
        let head = p + 1 + ext.len();
        if a - 1 < head {
            assert(a - 1 == p || ext[a - 1 - p - 1] == '/');
            assert(ext.contains('/'));
        }
        assert(path.skip(head) =~= tail);
        assert(path[a] == n[0] && tail[a - head] == n[0]);
        assert(n.contains(n[0]));
        if n.len() > 1 {
            assert(tail[a + 1 - head] == n[1]);
            assert(n.contains(n[1]));
        } else {
            assert(n =~= seq!['.']);
        }
    } else if p == a {
        assert(a > 0);
        assert(path[p - 1] == f.last());
    } else {
        assert(n[p - a] == '.');
        assert(n.skip(1)[p - a - 1] == '.');
        assert(n.skip(1).contains('.'));
        if n == seq!['.', '.'] {
            assert(n.len() == 2 && p == a + 1);
            assert(front[p - 1] == path[a]);
            if ext.len() > 0 {
                assert(ext[0] == path[p + 1]);
                assert(path[p + 1] == t[0]);
                assert(ext.contains('/'));
            }
            if a > 0 {
                assert(front[p - 2] == path[a - 1]);
                assert(path[a - 1] == f.last());
            }
        }
    }
}

/// Nothing leads upwards without two points in a row; a path with backslashes, or with two
/// separators at its beginning, is not judged by its text.
pub proof fn law_what_leads_upwards(path: Seq<char>, told: bool)
    ensures
        text_leads_upwards(path) ==> text::has_part(path, ".."@) && !path.contains('\\')
            && !two_separators(path),
        upward_fits(path, told) && text_leads_upwards(path) ==> told,
        upward_fits(path, told) && !text::has_part(path, ".."@) ==> !told,
{
    if text_leads_upwards(path) {
        reveal_strlit("..");
        let at = choose|at: int| upward_part_at(path, at);
        assert(path.subrange(at, at + 2) =~= ".."@);
        assert(text::part_at(path, ".."@, at));
    }
}

/// Where a path leads upwards, two points stand alone between slashes or at an end of it.
pub proof fn law_upward_steps_stand_alone(path: Seq<char>)
    ensures
        text_leads_upwards(path) <==> !path.contains('\\') && !two_separators(path) && exists|
            at: int,
        |
            0 <= at && at + 2 <= path.len() && #[trigger] path[at] == '.' && path[at + 1] == '.' && (at
                == 0 || path[at - 1] == '/') && (at + 2 == path.len() || path[at + 2] == '/'),
        two_separators(path) <==> path.len() >= 2 && (path[0] == '/' || path[0] == '\\') && (path[1]
            == '/' || path[1] == '\\'),
{
    if text_leads_upwards(path) {
        let at = choose|at: int| upward_part_at(path, at);
        assert(path[at] == '.');
    }
    if exists|at: int|
        0 <= at && at + 2 <= path.len() && #[trigger] path[at] == '.' && path[at + 1] == '.' && (at
            == 0 || path[at - 1] == '/') && (at + 2 == path.len() || path[at + 2] == '/') {
        let at = choose|at: int|
            0 <= at && at + 2 <= path.len() && #[trigger] path[at] == '.' && path[at + 1] == '.' && (
            at == 0 || path[at - 1] == '/') && (at + 2 == path.len() || path[at + 2] == '/');
        assert(upward_part_at(path, at));
    }
}

} // verus!
