//! Paths as byte strings: splitting into components, lexical
//! normalisation, joining, and component-wise containment.
use vstd::prelude::*;

verus! {

/// The path separator `/`.
pub const SEP: u8 = 47;

/// The byte `.`.
pub const DOT: u8 = 46;

pub open spec fn is_absolute_spec(p: Seq<u8>) -> bool {
    p.len() > 0 && p[0] == SEP
}

pub open spec fn is_cur_dir(c: Seq<u8>) -> bool {
    c == seq![DOT]
}

pub open spec fn is_parent_dir(c: Seq<u8>) -> bool {
    c == seq![DOT, DOT]
}

/// A component that names an entry: not empty, no separator, neither `.` nor `..`.
pub open spec fn is_normal_component(c: Seq<u8>) -> bool {
    c.len() > 0 && !c.contains(SEP) && !is_cur_dir(c) && !is_parent_dir(c)
}

/// The byte views of a sequence of byte vectors.
pub open spec fn views(s: Seq<Vec<u8>>) -> Seq<Seq<u8>> {
    s.map_values(|v: Vec<u8>| v@)
}

/// Appends a finished segment; empty segments and `.` are dropped.
pub open spec fn flush(done: Seq<Seq<u8>>, cur: Seq<u8>) -> Seq<Seq<u8>> {
    if cur.len() == 0 || is_cur_dir(cur) {
        done
    } else {
        done.push(cur)
    }
}

/// Left-to-right scan of a path: the components finished so far and the
/// segment being read.
pub open spec fn scan(p: Seq<u8>) -> (Seq<Seq<u8>>, Seq<u8>)
    decreases p.len(),
{
    if p.len() == 0 {
        (Seq::empty(), Seq::empty())
    } else {
        let (done, cur) = scan(p.drop_last());
        if p.last() == SEP {
            (flush(done, cur), Seq::empty())
        } else {
            (done, cur.push(p.last()))
        }
    }
}

/// The components of a path: the segments between separators, without
/// empty segments and without `.`.
pub open spec fn components(p: Seq<u8>) -> Seq<Seq<u8>> {
    flush(scan(p).0, scan(p).1)
}

/// Lexical resolution of `..` over a list of components: `..` removes the
/// component before it, and is dropped where there is none.
pub open spec fn normalize_spec(cs: Seq<Seq<u8>>) -> Seq<Seq<u8>>
    decreases cs.len(),
{
    if cs.len() == 0 {
        Seq::empty()
    } else {
        let r = normalize_spec(cs.drop_last());
        if is_parent_dir(cs.last()) {
            if r.len() > 0 {
                r.drop_last()
            } else {
                r
            }
        } else {
            r.push(cs.last())
        }
    }
}

/// Components joined by single separators.
pub open spec fn join_spec(cs: Seq<Seq<u8>>) -> Seq<u8>
    decreases cs.len(),
{
    if cs.len() == 0 {
        Seq::empty()
    } else if cs.len() == 1 {
        cs[0]
    } else {
        join_spec(cs.drop_last()) + seq![SEP] + cs.last()
    }
}

/// The path written from its components, with a leading separator when absolute.
pub open spec fn render(abs: bool, cs: Seq<Seq<u8>>) -> Seq<u8> {
    if abs {
        seq![SEP] + join_spec(cs)
    } else {
        join_spec(cs)
    }
}

/// A path with `.`, `..` and repeated separators resolved without the filesystem.
pub open spec fn lexical_normal(p: Seq<u8>) -> Seq<u8> {
    render(is_absolute_spec(p), normalize_spec(components(p)))
}

/// `p` lies at or below `base`, compared component by component.
pub open spec fn descends_from(p: Seq<u8>, base: Seq<u8>) -> bool {
    is_absolute_spec(p) == is_absolute_spec(base) && components(base).len() <= components(
        p,
    ).len() && components(p).subrange(0, components(base).len() as int) == components(base)
}

/// Appending `rel` to `base`: an absolute `rel` replaces `base`, otherwise a
/// separator is put between them where `base` does not end in one.
pub open spec fn join_path_spec(base: Seq<u8>, rel: Seq<u8>) -> Seq<u8> {
    if is_absolute_spec(rel) {
        rel
    } else if base.len() == 0 || base.last() == SEP {
        base + rel
    } else {
        base + seq![SEP] + rel
    }
}

/// A copy of a byte vector.
pub fn copy_bytes(v: &Vec<u8>) -> (r: Vec<u8>)
    ensures
        r@ == v@,
{
    let mut r: Vec<u8> = Vec::new();
    let mut i: usize = 0;
    while i < v.len()
        invariant
            i <= v.len(),
            r@ == v@.subrange(0, i as int),
        decreases v.len() - i,
    {
        r.push(v[i]);
        i += 1;
        assert(r@ =~= v@.subrange(0, i as int));
    }
    assert(v@.subrange(0, v.len() as int) =~= v@);
    r
}

pub fn is_absolute(p: &Vec<u8>) -> (r: bool)
    ensures
        r == is_absolute_spec(p@),
{
    p.len() > 0 && p[0] == SEP
}

pub fn is_parent_dir_exec(c: &Vec<u8>) -> (r: bool)
    ensures
        r == is_parent_dir(c@),
{
    let r = c.len() == 2 && c[0] == DOT && c[1] == DOT;
    if r {
        assert(c@ =~= seq![DOT, DOT]);
    }
    r
}

fn push_segment(done: &mut Vec<Vec<u8>>, cur: Vec<u8>)
    ensures
        views(final(done)@) == flush(views(old(done)@), cur@),
{
    if cur.len() == 0 {
        return ;
    }
    if cur.len() == 1 && cur[0] == DOT {
        assert(cur@ =~= seq![DOT]);
        return ;
    }
    assert(!is_cur_dir(cur@)) by {
        if cur@ == seq![DOT] {
            assert(cur@.len() == 1 && cur@[0] == DOT);
        }
    }
    let ghost before = done@;
    done.push(cur);
    assert(views(done@) =~= views(before).push(cur@));
}

/// The components of `p`, in order.
pub fn split_components(p: &Vec<u8>) -> (r: Vec<Vec<u8>>)
    ensures
        views(r@) == components(p@),
{
    let mut done: Vec<Vec<u8>> = Vec::new();
    let mut cur: Vec<u8> = Vec::new();
    let mut i: usize = 0;
    assert(views(done@) =~= Seq::<Seq<u8>>::empty());
    assert(p@.subrange(0, 0) =~= Seq::<u8>::empty());
    while i < p.len()
        invariant
            i <= p.len(),
            (views(done@), cur@) == scan(p@.subrange(0, i as int)),
        decreases p.len() - i,
    {
        let b = p[i];
        assert(p@.subrange(0, i + 1).drop_last() =~= p@.subrange(0, i as int));
        assert(p@.subrange(0, i + 1).last() == b);
        if b == SEP {
            push_segment(&mut done, cur);
            cur = Vec::new();
            assert(cur@ =~= Seq::<u8>::empty());
        } else {
            cur.push(b);
        }
        i += 1;
    }
    assert(p@.subrange(0, p.len() as int) =~= p@);
    push_segment(&mut done, cur);
    done
}


/// `..` resolved over a list of components.
pub fn normalize_components(cs: &Vec<Vec<u8>>) -> (r: Vec<Vec<u8>>)
    ensures
        views(r@) == normalize_spec(views(cs@)),
{
    let mut r: Vec<Vec<u8>> = Vec::new();
    let mut i: usize = 0;
    assert(views(cs@).subrange(0, 0) =~= Seq::<Seq<u8>>::empty());
    assert(views(r@) =~= Seq::<Seq<u8>>::empty());
    while i < cs.len()
        invariant
            i <= cs.len(),
            views(r@) == normalize_spec(views(cs@).subrange(0, i as int)),
        decreases cs.len() - i,
    {
        let ghost pre = views(cs@).subrange(0, i + 1);
        assert(pre.drop_last() =~= views(cs@).subrange(0, i as int));
        assert(pre.last() == cs@[i as int]@);
        let ghost before = r@;
        if is_parent_dir_exec(&cs[i]) {
            if r.len() > 0 {
                r.pop();
                assert(views(r@) =~= views(before).drop_last());
            }
        } else {
            let c = copy_bytes(&cs[i]);
            r.push(c);
            assert(views(r@) =~= views(before).push(cs@[i as int]@));
        }
        i += 1;
    }
    assert(views(cs@).subrange(0, cs.len() as int) =~= views(cs@));
    r
}

/// The path written from `cs`, with a leading separator when `abs`.
pub fn render_path(abs: bool, cs: &Vec<Vec<u8>>) -> (r: Vec<u8>)
    ensures
        r@ == render(abs, views(cs@)),
{
    let mut r: Vec<u8> = Vec::new();
    if abs {
        r.push(SEP);
    }
    let ghost head = r@;
    let mut i: usize = 0;
    assert(views(cs@).subrange(0, 0) =~= Seq::<Seq<u8>>::empty());
    assert(r@ =~= head + join_spec(views(cs@).subrange(0, 0)));
    while i < cs.len()
        invariant
            i <= cs.len(),
            head == (if abs { seq![SEP] } else { Seq::<u8>::empty() }),
            r@ == head + join_spec(views(cs@).subrange(0, i as int)),
        decreases cs.len() - i,
    {
        let ghost pre = views(cs@).subrange(0, i + 1);
        assert(pre.drop_last() =~= views(cs@).subrange(0, i as int));
        if i > 0 {
            r.push(SEP);
        }
        let c = &cs[i];
        let mut j: usize = 0;
        let ghost mid = r@;
        while j < c.len()
            invariant
                j <= c.len(),
                r@ == mid + c@.subrange(0, j as int),
            decreases c.len() - j,
        {
            r.push(c[j]);
            j += 1;
            assert(r@ =~= mid + c@.subrange(0, j as int));
        }
        assert(c@.subrange(0, c.len() as int) =~= c@);
        if i == 0 {
            assert(pre =~= seq![c@]);
            assert(r@ =~= head + join_spec(pre));
        } else {
            assert(r@ =~= head + join_spec(pre));
        }
        i += 1;
    }
    assert(views(cs@).subrange(0, cs.len() as int) =~= views(cs@));
    r
}

/// `p` with `.`, `..` and repeated separators resolved lexically; the
/// filesystem is not consulted.
pub fn normalize_lexically(p: &Vec<u8>) -> (r: Vec<u8>)
    ensures
        r@ == lexical_normal(p@),
{
    let cs = split_components(p);
    let n = normalize_components(&cs);
    render_path(is_absolute(p), &n)
}

/// `base` with `rel` appended.
pub fn join_path(base: &Vec<u8>, rel: &Vec<u8>) -> (r: Vec<u8>)
    ensures
        r@ == join_path_spec(base@, rel@),
{
    if is_absolute(rel) {
        return copy_bytes(rel);
    }
    let mut r = copy_bytes(base);
    if base.len() > 0 && base[base.len() - 1] != SEP {
        r.push(SEP);
    }
    let ghost mid = r@;
    let mut j: usize = 0;
    while j < rel.len()
        invariant
            j <= rel.len(),
            r@ == mid + rel@.subrange(0, j as int),
        decreases rel.len() - j,
    {
        r.push(rel[j]);
        j += 1;
        assert(r@ =~= mid + rel@.subrange(0, j as int));
    }
    assert(rel@.subrange(0, rel.len() as int) =~= rel@);
    r
}

/// Whether two byte strings are equal.
pub fn bytes_equal(a: &Vec<u8>, b: &Vec<u8>) -> (r: bool)
    ensures
        r == (a@ == b@),
{
    if a.len() != b.len() {
        return false;
    }
    let mut i: usize = 0;
    while i < a.len()
        invariant
            i <= a.len(),
            a.len() == b.len(),
            a@.subrange(0, i as int) == b@.subrange(0, i as int),
        decreases a.len() - i,
    {
        if a[i] != b[i] {
            assert(a@[i as int] != b@[i as int]);
            return false;
        }
        i += 1;
        assert(a@.subrange(0, i as int) =~= a@.subrange(0, i - 1).push(a@[i - 1]));
        assert(b@.subrange(0, i as int) =~= b@.subrange(0, i - 1).push(b@[i - 1]));
    }
    assert(a@ =~= a@.subrange(0, a.len() as int));
    assert(b@ =~= b@.subrange(0, b.len() as int));
    true
}

/// Whether `p` lies at or below `base`, component by component (so `/a/bc`
/// does not lie below `/a/b`).
pub fn starts_with(p: &Vec<u8>, base: &Vec<u8>) -> (r: bool)
    ensures
        r == descends_from(p@, base@),
{
    if is_absolute(p) != is_absolute(base) {
        return false;
    }
    let pc = split_components(p);
    let bc = split_components(base);
    if bc.len() > pc.len() {
        return false;
    }
    let mut i: usize = 0;
    while i < bc.len()
        invariant
            i <= bc.len() <= pc.len(),
            views(pc@) == components(p@),
            views(bc@) == components(base@),
            is_absolute_spec(p@) == is_absolute_spec(base@),
            views(pc@).subrange(0, i as int) == views(bc@).subrange(0, i as int),
        decreases bc.len() - i,
    {
        if !bytes_equal(&pc[i], &bc[i]) {
            assert(views(pc@)[i as int] != views(bc@)[i as int]);
            let ghost cp = components(p@);
            let ghost cb = components(base@);
            assert(cp.subrange(0, cb.len() as int)[i as int] == cp[i as int]);
            assert(cp.subrange(0, cb.len() as int) != cb);
            assert(!descends_from(p@, base@));
            return false;
        }
        i += 1;
        assert(views(pc@).subrange(0, i as int) =~= views(pc@).subrange(0, i - 1).push(
            views(pc@)[i - 1],
        ));
        assert(views(bc@).subrange(0, i as int) =~= views(bc@).subrange(0, i - 1).push(
            views(bc@)[i - 1],
        ));
    }
    assert(views(bc@).subrange(0, bc.len() as int) =~= views(bc@));
    true
}

/// The last component of `p` when it names an entry; `None` for a path
/// with no components or one that ends in `..`.
pub open spec fn file_name_spec(p: Seq<u8>) -> Option<Seq<u8>> {
    let cs = components(p);
    if cs.len() == 0 || is_parent_dir(cs.last()) {
        None
    } else {
        Some(cs.last())
    }
}

/// `p` without its last component; `None` for a path with no components.
pub open spec fn parent_spec(p: Seq<u8>) -> Option<Seq<u8>> {
    let cs = components(p);
    if cs.len() == 0 {
        None
    } else {
        Some(render(is_absolute_spec(p), cs.drop_last()))
    }
}

pub fn file_name(p: &Vec<u8>) -> (r: Option<Vec<u8>>)
    ensures
        match r {
            Some(n) => file_name_spec(p@) == Some(n@),
            None => file_name_spec(p@) is None,
        },
{
    let mut cs = split_components(p);
    if cs.len() == 0 {
        return None;
    }
    let ghost all = views(cs@);
    let last = cs.pop().unwrap();
    assert(last@ == all.last());
    if is_parent_dir_exec(&last) {
        None
    } else {
        Some(last)
    }
}

pub fn parent(p: &Vec<u8>) -> (r: Option<Vec<u8>>)
    ensures
        match r {
            Some(q) => parent_spec(p@) == Some(q@),
            None => parent_spec(p@) is None,
        },
{
    let mut cs = split_components(p);
    if cs.len() == 0 {
        return None;
    }
    let ghost all = views(cs@);
    cs.pop();
    assert(views(cs@) =~= all.drop_last());
    Some(render_path(is_absolute(p), &cs))
}

/// Reading bytes without a separator extends the current segment.
pub proof fn lemma_scan_append_plain(q: Seq<u8>, c: Seq<u8>)
    requires
        !c.contains(SEP),
    ensures
        scan(q + c) == (scan(q).0, scan(q).1 + c),
    decreases c.len(),
{
    if c.len() == 0 {
        assert(q + c =~= q);
        assert(scan(q).1 + c =~= scan(q).1);
    } else {
        let c1 = c.drop_last();
        assert(!c1.contains(SEP)) by {
            if c1.contains(SEP) {
                let k = choose|k: int| 0 <= k < c1.len() && c1[k] == SEP;
                assert(c[k] == SEP);
            }
        }
        lemma_scan_append_plain(q, c1);
        assert((q + c).drop_last() =~= q + c1);
        assert((q + c).last() == c.last());
        assert(c.last() != SEP) by {
            assert(c[c.len() - 1] == c.last());
        }
        assert((scan(q).1 + c1).push(c.last()) =~= scan(q).1 + c);
    }
}

/// Every component is non-empty, holds no separator and is not `.`.
pub proof fn lemma_components_wellformed(p: Seq<u8>)
    ensures
        forall|i: int|
            0 <= i < components(p).len() ==> {
                let c = #[trigger] components(p)[i];
                c.len() > 0 && !c.contains(SEP) && !is_cur_dir(c)
            },
{
    lemma_scan_wellformed(p);
}

proof fn lemma_scan_wellformed(p: Seq<u8>)
    ensures
        forall|i: int|
            0 <= i < scan(p).0.len() ==> {
                let c = #[trigger] scan(p).0[i];
                c.len() > 0 && !c.contains(SEP) && !is_cur_dir(c)
            },
        !scan(p).1.contains(SEP),
        forall|i: int|
            0 <= i < components(p).len() ==> {
                let c = #[trigger] components(p)[i];
                c.len() > 0 && !c.contains(SEP) && !is_cur_dir(c)
            },
    decreases p.len(),
{
    if p.len() == 0 {
        assert(!Seq::<u8>::empty().contains(SEP));
    } else {
        lemma_scan_wellformed(p.drop_last());
        let cur = scan(p.drop_last()).1;
        if p.last() != SEP {
            assert(!cur.push(p.last()).contains(SEP)) by {
                if cur.push(p.last()).contains(SEP) {
                    let k = choose|k: int| 0 <= k < cur.push(p.last()).len() && cur.push(p.last())[k] == SEP;
                    if k < cur.len() {
                        assert(cur[k] == SEP);
                    }
                }
            }
        } else {
            assert(!Seq::<u8>::empty().contains(SEP));
        }
    }
}

/// A path written from components that each name an entry reads back as
/// the same components.
pub proof fn lemma_components_of_render(abs: bool, cs: Seq<Seq<u8>>)
    requires
        forall|i: int| 0 <= i < cs.len() ==> is_normal_component(#[trigger] cs[i]),
    ensures
        components(render(abs, cs)) == cs,
    decreases cs.len(),
{
    let prefix = if abs { seq![SEP] } else { Seq::<u8>::empty() };
    assert(scan(prefix).0 == Seq::<Seq<u8>>::empty() && scan(prefix).1 == Seq::<u8>::empty()) by {
        assert(scan(Seq::<u8>::empty()) == (Seq::<Seq<u8>>::empty(), Seq::<u8>::empty()));
        if abs {
            assert(prefix.drop_last() =~= Seq::<u8>::empty());
            assert(prefix.last() == SEP);
            assert(flush(Seq::<Seq<u8>>::empty(), Seq::<u8>::empty()) == Seq::<Seq<u8>>::empty());
        } else {
            assert(prefix.len() == 0);
        }
    }
    if cs.len() == 0 {
        assert(render(abs, cs) =~= prefix);
    } else if cs.len() == 1 {
        let c = cs[0];
        assert(is_normal_component(c));
        assert(render(abs, cs) =~= prefix + c);
        lemma_scan_append_plain(prefix, c);
        assert(Seq::<u8>::empty() + c =~= c);
        assert(Seq::<Seq<u8>>::empty().push(c) =~= cs);
    } else {
        let init = cs.drop_last();
        let c = cs.last();
        assert(is_normal_component(c));
        assert forall|i: int| 0 <= i < init.len() implies is_normal_component(#[trigger] init[i]) by {
            assert(init[i] == cs[i]);
        }
        lemma_components_of_render(abs, init);
        let p = render(abs, init);
        let q = p.push(SEP);
        assert(render(abs, cs) =~= q + c);
        assert(q.drop_last() =~= p);
        assert(scan(q) == (init, Seq::<u8>::empty()));
        lemma_scan_append_plain(q, c);
        assert(Seq::<u8>::empty() + c =~= c);
        assert(init.push(c) =~= cs);
    }
}

/// `..` resolution leaves a list without `..` unchanged at its end.
pub proof fn lemma_normalize_append_plain(a: Seq<Seq<u8>>, b: Seq<Seq<u8>>)
    requires
        forall|i: int| 0 <= i < b.len() ==> !is_parent_dir(#[trigger] b[i]),
    ensures
        normalize_spec(a + b) == normalize_spec(a) + b,
    decreases b.len(),
{
    if b.len() == 0 {
        assert(a + b =~= a);
        assert(normalize_spec(a) + b =~= normalize_spec(a));
    } else {
        let b1 = b.drop_last();
        assert forall|i: int| 0 <= i < b1.len() implies !is_parent_dir(#[trigger] b1[i]) by {
            assert(b1[i] == b[i]);
        }
        lemma_normalize_append_plain(a, b1);
        assert((a + b).drop_last() =~= a + b1);
        assert((a + b).last() == b.last());
        assert(!is_parent_dir(b[b.len() - 1]));
        assert((normalize_spec(a) + b1).push(b.last()) =~= normalize_spec(a) + b);
    }
}

/// A list without `..` is its own resolution.
pub proof fn lemma_normalize_plain(cs: Seq<Seq<u8>>)
    requires
        forall|i: int| 0 <= i < cs.len() ==> !is_parent_dir(#[trigger] cs[i]),
    ensures
        normalize_spec(cs) == cs,
{
    lemma_normalize_append_plain(Seq::empty(), cs);
    assert(Seq::<Seq<u8>>::empty() + cs =~= cs);
}

} // verus!
