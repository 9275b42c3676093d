//! Path segmentation and normalization.
//!
//! A logical path has the form `device:/a/b/c`: a root token ending in the
//! device delimiter `:`, then `/`-separated normal tokens, where a `..`
//! token pops the most recently appended segment (silently a no-op on an
//! empty stack). Packing reassembles a segment sequence into a
//! backend-addressable string.

use vstd::prelude::*;
use vstd::string::*;
use crate::error::FsError;

verus! {

/// How one `/`-delimited token of a logical path is classified.
#[derive(Clone, Copy, Debug, PartialEq, Eq, Structural)]
pub enum PathSegmentType {
    Invalid,
    Root,
    Normal,
}

/// One unit of an unpacked path: the token text plus its classification.
/// A `Root` segment keeps the trailing device delimiter in its name.
#[derive(Clone, Debug)]
pub struct PathSegment {
    pub name: String,
    pub segment_type: PathSegmentType,
}

/// The mathematical form of a segment: its characters and its kind.
#[verifier::ext_equal]
pub struct SpecPathSegment {
    pub name: Seq<char>,
    pub segment_type: PathSegmentType,
}

impl View for PathSegment {
    type V = SpecPathSegment;

    open spec fn view(&self) -> SpecPathSegment {
        SpecPathSegment { name: self.name@, segment_type: self.segment_type }
    }
}

impl PathSegment {
    pub fn from(name: String, segment_type: PathSegmentType) -> (r: Self)
        ensures
            r@ == (SpecPathSegment { name: name@, segment_type }),
    {
        Self { name, segment_type }
    }

    pub fn new() -> (r: Self)
        ensures
            r@ == (SpecPathSegment {
                name: Seq::<char>::empty(),
                segment_type: PathSegmentType::Invalid,
            }),
    {
        Self::from(String::new(), PathSegmentType::Invalid)
    }
}

/// An ordered sequence of segments, left-to-right path order.
pub type UnpackedPath = Vec<PathSegment>;

/// The segment views of an unpacked path, in order.
pub open spec fn segs_view(s: Seq<PathSegment>) -> Seq<SpecPathSegment> {
    s.map_values(|p: PathSegment| p@)
}

/// A token that ends with the device delimiter is a root token.
pub open spec fn is_root_token(t: Seq<char>) -> bool {
    t.len() > 0 && t.last() == ':'
}

/// The token that pops the previously appended segment.
pub open spec fn is_parent_token(t: Seq<char>) -> bool {
    t == seq!['.', '.']
}

/// Folds one token into the segment stack built so far.
pub open spec fn unpack_step(acc: Seq<SpecPathSegment>, t: Seq<char>) -> Seq<SpecPathSegment> {
    if is_root_token(t) {
        acc.push(SpecPathSegment { name: t, segment_type: PathSegmentType::Root })
    } else if is_parent_token(t) {
        if acc.len() == 0 {
            acc
        } else {
            acc.drop_last()
        }
    } else {
        acc.push(SpecPathSegment { name: t, segment_type: PathSegmentType::Normal })
    }
}

/// Folds a whole token sequence, left to right.
pub open spec fn unpack_tokens(
    acc: Seq<SpecPathSegment>,
    toks: Seq<Seq<char>>,
) -> Seq<SpecPathSegment>
    decreases toks.len(),
{
    if toks.len() == 0 {
        acc
    } else {
        unpack_tokens(unpack_step(acc, toks.first()), toks.drop_first())
    }
}

/// Splitting a character sequence on `/`. Splitting the empty sequence
/// yields one empty token, exactly as splitting a string does.
pub open spec fn tokens_of(s: Seq<char>) -> Seq<Seq<char>>
    decreases s.len(),
{
    if s.len() == 0 {
        seq![Seq::<char>::empty()]
    } else if s.last() == '/' {
        tokens_of(s.drop_last()).push(Seq::<char>::empty())
    } else {
        let t = tokens_of(s.drop_last());
        t.update(t.len() - 1, t.last().push(s.last()))
    }
}

/// What unpacking a path yields.
pub open spec fn unpack_spec(s: Seq<char>) -> Seq<SpecPathSegment> {
    unpack_tokens(Seq::<SpecPathSegment>::empty(), tokens_of(s))
}

proof fn lemma_tokens_of_nonempty(s: Seq<char>)
    ensures
        tokens_of(s).len() >= 1,
    decreases s.len(),
{
    if s.len() > 0 {
        lemma_tokens_of_nonempty(s.drop_last());
    }
}

proof fn lemma_unpack_tokens_snoc(acc: Seq<SpecPathSegment>, toks: Seq<Seq<char>>, t: Seq<char>)
    ensures
        unpack_tokens(acc, toks.push(t)) == unpack_step(unpack_tokens(acc, toks), t),
    decreases toks.len(),
{
    if toks.len() == 0 {
        assert(toks.push(t).first() == t);
        assert(toks.push(t).drop_first() =~= Seq::<Seq<char>>::empty());
        assert(unpack_tokens(unpack_step(acc, t), Seq::<Seq<char>>::empty()) == unpack_step(
            acc,
            t,
        ));
    } else {
        assert(toks.push(t).first() == toks.first());
        assert(toks.push(t).drop_first() =~= toks.drop_first().push(t));
        lemma_unpack_tokens_snoc(unpack_step(acc, toks.first()), toks.drop_first(), t);
    }
}

/// Classifies the token `path_str@[start..end)` and folds it into `segments`.
fn push_token(segments: &mut UnpackedPath, path_str: &str, start: usize, end: usize)
    requires
        start <= end <= path_str@.len(),
    ensures
        segs_view(final(segments)@) == unpack_step(
            segs_view(old(segments)@),
            path_str@.subrange(start as int, end as int),
        ),
{
    let ghost token = path_str@.subrange(start as int, end as int);
    let len: usize = end - start;
    if len > 0 && path_str.get_char(end - 1) == ':' {
        assert(token.last() == path_str@[end - 1]);
        assert(is_root_token(token));
        let name: String = path_str.substring_char(start, end).to_owned();
        segments.push(PathSegment { name, segment_type: PathSegmentType::Root });
        proof {
            assert(segs_view(final(segments)@) =~= unpack_step(segs_view(old(segments)@), token));
        }
    } else if len == 2 && path_str.get_char(start) == '.' && path_str.get_char(start + 1) == '.' {
        assert(token =~= seq!['.', '.']);
        assert(!is_root_token(token));
        if segments.len() > 0 {
            let _popped = segments.pop();
            proof {
                assert(segs_view(final(segments)@) =~= segs_view(old(segments)@).drop_last());
            }
        }
    } else {
        proof {
            if is_parent_token(token) {
                assert(token.len() == 2 && token[0] == '.' && token[1] == '.');
                assert(false);
            }
        }
        let name: String = path_str.substring_char(start, end).to_owned();
        segments.push(PathSegment { name, segment_type: PathSegmentType::Normal });
        proof {
            assert(segs_view(final(segments)@) =~= unpack_step(segs_view(old(segments)@), token));
        }
    }
}

/// Splits a logical path on `/` and folds every token, in order, into a
/// segment stack: root tokens and normal tokens are appended, a `..` token
/// pops the latest segment and is silently ignored on an empty stack.
pub fn unpack_path_impl(path: String) -> (r: UnpackedPath)
    ensures
        segs_view(r@) == unpack_spec(path@),
{
    let path_str: &str = path.as_str();
    let n: usize = path_str.unicode_len();
    let mut segments: UnpackedPath = Vec::new();
    let mut start: usize = 0;
    let mut i: usize = 0;
    let ghost mut done: Seq<Seq<char>> = Seq::<Seq<char>>::empty();
    proof {
        assert(path@.take(0) =~= Seq::<char>::empty());
        assert(path@.subrange(0, 0) =~= Seq::<char>::empty());
        assert(tokens_of(path@.take(0)) =~= done.push(path@.subrange(0, 0)));
    }
    while i < n
        invariant
            start <= i <= n,
            n == path@.len(),
            path_str@ == path@,
            tokens_of(path@.take(i as int)) == done.push(
                path@.subrange(start as int, i as int),
            ),
            segs_view(segments@) == unpack_tokens(Seq::<SpecPathSegment>::empty(), done),
        decreases n - i,
    {
        let ghost partial = path@.subrange(start as int, i as int);
        let c = path_str.get_char(i);
        proof {
            assert(path@.take(i + 1 as int).drop_last() =~= path@.take(i as int));
            assert(path@.take(i + 1 as int).last() == c);
        }
        if c == '/' {
            push_token(&mut segments, path_str, start, i);
            proof {
                lemma_unpack_tokens_snoc(Seq::<SpecPathSegment>::empty(), done, partial);
                done = done.push(partial);
                assert(tokens_of(path@.take(i + 1 as int)) == done.push(
                    Seq::<char>::empty(),
                ));
                assert(path@.subrange(i + 1 as int, i + 1 as int) =~= Seq::<char>::empty());
            }
            start = i + 1;
        } else {
            proof {
                let t = tokens_of(path@.take(i as int));
                lemma_tokens_of_nonempty(path@.take(i as int));
                assert(t.update(t.len() - 1, t.last().push(c)) =~= done.push(partial.push(c)));
                assert(partial.push(c) =~= path@.subrange(start as int, i + 1 as int));
            }
        }
        i = i + 1;
    }
    push_token(&mut segments, path_str, start, n);
    proof {
        let ghost partial = path@.subrange(start as int, n as int);
        assert(path@.take(n as int) =~= path@);
        lemma_unpack_tokens_snoc(Seq::<SpecPathSegment>::empty(), done, partial);
    }
    segments
}

/// Unpacks a path and rejects the result when it is empty, which is the
/// only way unpacking can fail.
pub fn unpack_path(path: String) -> (r: Result<UnpackedPath, FsError>)
    ensures
        unpack_spec(path@).len() == 0 ==> r == Err::<UnpackedPath, FsError>(FsError::InvalidPath),
        unpack_spec(path@).len() > 0 ==> (r matches Ok(v) && segs_view(v@) == unpack_spec(path@)),
{
    let unpacked_path = unpack_path_impl(path);
    if unpacked_path.is_empty() {
        proof {
            assert(segs_view(unpacked_path@).len() == unpacked_path@.len());
        }
        Err(FsError::InvalidPath)
    } else {
        Ok(unpacked_path)
    }
}

/// The leading text of a packed path: a single `/` unless the root segment
/// itself is to be emitted.
pub open spec fn pack_prefix(add_root: bool) -> Seq<char> {
    if add_root {
        Seq::<char>::empty()
    } else {
        seq!['/']
    }
}

/// The text one segment contributes to a packed path.
pub open spec fn emit_segment(seg: SpecPathSegment, add_root: bool) -> Seq<char> {
    match seg.segment_type {
        PathSegmentType::Root => if add_root {
            seg.name.push('/')
        } else {
            Seq::<char>::empty()
        },
        PathSegmentType::Normal => seg.name.push('/'),
        PathSegmentType::Invalid => Seq::<char>::empty(),
    }
}

/// The concatenated contributions of a segment sequence.
pub open spec fn pack_body(segs: Seq<SpecPathSegment>, add_root: bool) -> Seq<char>
    decreases segs.len(),
{
    if segs.len() == 0 {
        Seq::<char>::empty()
    } else {
        emit_segment(segs.first(), add_root) + pack_body(segs.drop_first(), add_root)
    }
}

/// What packing a segment sequence yields: prefix plus contributions, with
/// the final delimiter dropped whenever more than a bare `/` accumulated.
pub open spec fn pack_spec(segs: Seq<SpecPathSegment>, add_root: bool) -> Seq<char> {
    let full = pack_prefix(add_root) + pack_body(segs, add_root);
    if full.len() > 1 {
        full.drop_last()
    } else {
        full
    }
}

proof fn lemma_pack_body_snoc(segs: Seq<SpecPathSegment>, seg: SpecPathSegment, add_root: bool)
    ensures
        pack_body(segs.push(seg), add_root) == pack_body(segs, add_root) + emit_segment(
            seg,
            add_root,
        ),
    decreases segs.len(),
{
    if segs.len() == 0 {
        assert(segs.push(seg).first() == seg);
        assert(segs.push(seg).drop_first() =~= Seq::<SpecPathSegment>::empty());
        assert(pack_body(Seq::<SpecPathSegment>::empty(), add_root) == Seq::<char>::empty());
        assert(pack_body(segs.push(seg), add_root) =~= emit_segment(seg, add_root));
        assert(pack_body(segs, add_root) + emit_segment(seg, add_root) =~= emit_segment(
            seg,
            add_root,
        ));
    } else {
        assert(segs.push(seg).first() == segs.first());
        assert(segs.push(seg).drop_first() =~= segs.drop_first().push(seg));
        lemma_pack_body_snoc(segs.drop_first(), seg, add_root);
        assert(pack_body(segs.push(seg), add_root) =~= pack_body(segs, add_root) + emit_segment(
            seg,
            add_root,
        ));
    }
}

/// Reassembles an unpacked path. With `add_root` false the result is a
/// backend-local path: it begins with `/` and root segments are skipped;
/// with `add_root` true the root segment text is emitted instead. A path
/// with content never keeps its trailing `/`; the empty result stays `/`.
pub fn pack_path(unpacked_path: UnpackedPath, add_root: bool) -> (r: String)
    ensures
        r@ == pack_spec(segs_view(unpacked_path@), add_root),
{
    let ghost all = segs_view(unpacked_path@);
    let mut path: String = String::new();
    if !add_root {
        path.append("/");
    }
    proof {
        reveal_strlit("/");
        assert(path@ =~= pack_prefix(add_root));
        assert(all.take(0) =~= Seq::<SpecPathSegment>::empty());
        assert(path@ =~= pack_prefix(add_root) + pack_body(all.take(0), add_root));
    }
    let mut idx: usize = 0;
    let count: usize = unpacked_path.len();
    while idx < count
        invariant
            idx <= count,
            count == unpacked_path@.len(),
            all == segs_view(unpacked_path@),
            path@ == pack_prefix(add_root) + pack_body(all.take(idx as int), add_root),
        decreases count - idx,
    {
        let seg = &unpacked_path[idx];
        proof {
            assert(seg@ == all[idx as int]);
        }
        match seg.segment_type {
            PathSegmentType::Root => {
                if add_root {
                    path.append(seg.name.as_str());
                    path.append("/");
                }
            },
            PathSegmentType::Normal => {
                path.append(seg.name.as_str());
                path.append("/");
            },
            PathSegmentType::Invalid => {},
        }
        proof {
            reveal_strlit("/");
            lemma_pack_body_snoc(all.take(idx as int), all[idx as int], add_root);
            assert(all.take(idx + 1 as int) =~= all.take(idx as int).push(all[idx as int]));
            assert(path@ =~= pack_prefix(add_root) + pack_body(all.take(idx + 1 as int), add_root));
        }
        idx = idx + 1;
    }
    proof {
        assert(all.take(count as int) =~= all);
    }
    let total: usize = path.as_str().unicode_len();
    if total > 1 {
        let trimmed: &str = path.as_str().substring_char(0, total - 1);
        let r = trimmed.to_owned();
        proof {
            let full = pack_prefix(add_root) + pack_body(all, add_root);
            assert(r@ =~= full.drop_last());
        }
        r
    } else {
        path
    }
}

proof fn lemma_tokens_of_no_slash(s: Seq<char>)
    ensures
        forall|i: int|
            0 <= i < tokens_of(s).len() ==> !(#[trigger] tokens_of(s)[i]).contains('/'),
    decreases s.len(),
{
    if s.len() == 0 {
        assert(!tokens_of(s)[0].contains('/'));
    } else if s.last() == '/' {
        lemma_tokens_of_no_slash(s.drop_last());
        let prev = tokens_of(s.drop_last());
        assert(!Seq::<char>::empty().contains('/'));
        assert forall|i: int|
            0 <= i < tokens_of(s).len() implies !(#[trigger] tokens_of(s)[i]).contains('/') by {
            if i < prev.len() {
                assert(tokens_of(s)[i] == prev[i]);
            } else {
                assert(tokens_of(s)[i] =~= Seq::<char>::empty());
            }
        }
    } else {
        lemma_tokens_of_no_slash(s.drop_last());
        let prev = tokens_of(s.drop_last());
        lemma_tokens_of_nonempty(s.drop_last());
        let upd = prev.last().push(s.last());
        assert(!prev[prev.len() - 1].contains('/'));
        assert(!upd.contains('/')) by {
            if upd.contains('/') {
                let j = choose|j: int| 0 <= j < upd.len() && upd[j] == '/';
                if j < prev.last().len() {
                    assert(prev.last()[j] == '/');
                    assert(prev.last().contains('/'));
                } else {
                    assert(upd[j] == s.last());
                }
            }
        }
        assert forall|i: int|
            0 <= i < tokens_of(s).len() implies !(#[trigger] tokens_of(s)[i]).contains('/') by {
            if i == prev.len() - 1 {
                assert(tokens_of(s)[i] == upd);
            } else {
                assert(tokens_of(s)[i] == prev[i]);
            }
        }
    }
}

proof fn lemma_unpack_tokens_names_no_slash(acc: Seq<SpecPathSegment>, toks: Seq<Seq<char>>)
    requires
        forall|i: int| 0 <= i < acc.len() ==> !(#[trigger] acc[i]).name.contains('/'),
        forall|i: int| 0 <= i < toks.len() ==> !(#[trigger] toks[i]).contains('/'),
    ensures
        forall|i: int|
            0 <= i < unpack_tokens(acc, toks).len() ==> !(#[trigger] unpack_tokens(acc, toks)[i])
                .name.contains('/'),
    decreases toks.len(),
{
    if toks.len() > 0 {
        let head = toks.first();
        assert(head == toks[0]);
        assert(!head.contains('/'));
        let stepped = unpack_step(acc, head);
        assert forall|i: int|
            0 <= i < stepped.len() implies !(#[trigger] stepped[i]).name.contains('/') by {
            if is_root_token(head) || !is_parent_token(head) {
                if i < acc.len() {
                    assert(stepped[i] == acc[i]);
                } else {
                    assert(stepped[i].name == head);
                }
            } else {
                assert(stepped[i] == acc[i]);
            }
        }
        assert forall|i: int|
            0 <= i < toks.drop_first().len() implies !(#[trigger] toks.drop_first()[i]).contains(
            '/',
        ) by {
            assert(toks.drop_first()[i] == toks[i + 1]);
        }
        lemma_unpack_tokens_names_no_slash(stepped, toks.drop_first());
    }
}

/// Law: every segment unpacking produces has a name free of `/`, so a
/// repacked path keeps one token per segment and a later unpack of it
/// cannot merge or split them.
pub proof fn lemma_unpack_names_no_slash(s: Seq<char>)
    ensures
        forall|i: int|
            0 <= i < unpack_spec(s).len() ==> !(#[trigger] unpack_spec(s)[i]).name.contains('/'),
{
    lemma_tokens_of_no_slash(s);
    lemma_unpack_tokens_names_no_slash(Seq::<SpecPathSegment>::empty(), tokens_of(s));
}

/// Law: a path made of nothing but `..` tokens unpacks to the empty
/// sequence, so every facade operation on it fails with `InvalidPath`.
pub proof fn lemma_parent_only_unpacks_empty(s: Seq<char>)
    requires
        forall|i: int| 0 <= i < tokens_of(s).len() ==> is_parent_token(#[trigger] tokens_of(s)[i]),
    ensures
        unpack_spec(s).len() == 0,
{
    lemma_unpack_parent_tokens_shrink(Seq::<SpecPathSegment>::empty(), tokens_of(s));
}

proof fn lemma_unpack_parent_tokens_shrink(acc: Seq<SpecPathSegment>, toks: Seq<Seq<char>>)
    requires
        forall|i: int| 0 <= i < toks.len() ==> is_parent_token(#[trigger] toks[i]),
    ensures
        unpack_tokens(acc, toks).len() <= acc.len(),
    decreases toks.len(),
{
    if toks.len() > 0 {
        assert(is_parent_token(toks.first()));
        assert(!is_root_token(toks.first())) by {
            assert(toks.first() == seq!['.', '.']);
            assert(toks.first().last() == '.');
        }
        let stepped = unpack_step(acc, toks.first());
        assert(stepped.len() <= acc.len());
        assert(forall|i: int|
            0 <= i < toks.drop_first().len() ==> is_parent_token(
                #[trigger] toks.drop_first()[i],
            )) by {
            assert(forall|i: int|
                0 <= i < toks.drop_first().len() ==> toks.drop_first()[i] == toks[i + 1]);
        }
        lemma_unpack_parent_tokens_shrink(stepped, toks.drop_first());
    }
}

/// Law: packing any sequence without normal segments as a backend-local
/// path yields exactly `/`; in particular the empty sequence and a lone
/// root segment do.
pub proof fn lemma_pack_without_normal_is_slash(segs: Seq<SpecPathSegment>)
    requires
        forall|i: int|
            0 <= i < segs.len() ==> (#[trigger] segs[i]).segment_type != PathSegmentType::Normal,
    ensures
        pack_spec(segs, false) == seq!['/'],
{
    lemma_pack_body_without_normal(segs);
    assert(pack_prefix(false) + pack_body(segs, false) =~= seq!['/']);
}

proof fn lemma_pack_body_without_normal(segs: Seq<SpecPathSegment>)
    requires
        forall|i: int|
            0 <= i < segs.len() ==> (#[trigger] segs[i]).segment_type != PathSegmentType::Normal,
    ensures
        pack_body(segs, false) == Seq::<char>::empty(),
    decreases segs.len(),
{
    if segs.len() > 0 {
        assert(segs[0].segment_type != PathSegmentType::Normal);
        assert(emit_segment(segs.first(), false) =~= Seq::<char>::empty());
        assert(forall|i: int|
            0 <= i < segs.drop_first().len() ==> (#[trigger] segs.drop_first()[i]).segment_type
                != PathSegmentType::Normal) by {
            assert(forall|i: int|
                0 <= i < segs.drop_first().len() ==> segs.drop_first()[i] == segs[i + 1]);
        }
        lemma_pack_body_without_normal(segs.drop_first());
        assert(pack_body(segs, false) =~= Seq::<char>::empty());
    }
}

/// Law: a backend-local packed path always begins with `/`.
pub proof fn lemma_pack_local_path_starts_with_slash(segs: Seq<SpecPathSegment>)
    ensures
        pack_spec(segs, false).len() >= 1,
        pack_spec(segs, false)[0] == '/',
{
    let full = pack_prefix(false) + pack_body(segs, false);
    assert(full[0] == '/');
}

/// Law: when every normal segment has a nonempty name free of `/`, a
/// backend-local packed path with content never ends in `/`. (A normal
/// segment with an empty name, as unpacking `a//b` produces, is the one
/// family of inputs on which this fails.)
pub proof fn lemma_pack_local_path_no_trailing_slash(segs: Seq<SpecPathSegment>)
    requires
        forall|i: int|
            0 <= i < segs.len() && (#[trigger] segs[i]).segment_type == PathSegmentType::Normal
                ==> segs[i].name.len() > 0 && !segs[i].name.contains('/'),
    ensures
        pack_spec(segs, false).len() > 1 ==> pack_spec(segs, false).last() != '/',
{
    lemma_pack_body_shape(segs);
    let full = pack_prefix(false) + pack_body(segs, false);
    if full.len() > 1 {
        let body = pack_body(segs, false);
        assert(body.len() >= 2);
        assert(full.drop_last().last() == full[full.len() - 2]);
        assert(full[full.len() - 2] == body[body.len() - 2]);
    }
}

proof fn lemma_pack_body_shape(segs: Seq<SpecPathSegment>)
    requires
        forall|i: int|
            0 <= i < segs.len() && (#[trigger] segs[i]).segment_type == PathSegmentType::Normal
                ==> segs[i].name.len() > 0 && !segs[i].name.contains('/'),
    ensures
        pack_body(segs, false).len() == 0 || (pack_body(segs, false).len() >= 2 && pack_body(
            segs,
            false,
        ).last() == '/' && pack_body(segs, false)[pack_body(segs, false).len() - 2] != '/'),
    decreases segs.len(),
{
    if segs.len() > 0 {
        let head = segs.first();
        let emitted = emit_segment(head, false);
        assert(forall|i: int|
            0 <= i < segs.drop_first().len() && (#[trigger] segs.drop_first()[i]).segment_type
                == PathSegmentType::Normal ==> segs.drop_first()[i].name.len() > 0
                && !segs.drop_first()[i].name.contains('/')) by {
            assert(forall|i: int|
                0 <= i < segs.drop_first().len() ==> segs.drop_first()[i] == segs[i + 1]);
        }
        lemma_pack_body_shape(segs.drop_first());
        let rest = pack_body(segs.drop_first(), false);
        let body = pack_body(segs, false);
        assert(body == emitted + rest);
        if head.segment_type == PathSegmentType::Normal {
            assert(segs[0].segment_type == PathSegmentType::Normal);
            assert(head.name.len() > 0 && !head.name.contains('/'));
            assert(emitted.len() == head.name.len() + 1);
            assert(emitted.last() == '/');
            assert(emitted[emitted.len() - 2] == head.name.last());
            assert(head.name.contains(head.name.last()));
            if rest.len() == 0 {
                assert(body =~= emitted);
            } else {
                assert(body.len() >= 2);
                assert(body.last() == rest.last());
                assert(body[body.len() - 2] == rest[rest.len() - 2]);
            }
        } else {
            assert(emitted =~= Seq::<char>::empty());
            assert(body =~= rest);
        }
    }
}

} // verus!
