//! Paths as sequences of components, with the operations that the locator,
//! the schema guard and the message formatting need. A path is read
//! component by component: `a/b` has the two names `a` and `b`, and is a
//! prefix of `a/b/c` but not of `a/bc`.

use crate::text::chars_of;
use vstd::prelude::*;
use vstd::string::*;

verus! {

/// The mathematical value of one component of a path.
pub enum Segment {
    /// The root directory; only the first component of an absolute path.
    Root,
    /// The directory itself (`.`); only kept as the first component of a
    /// relative path.
    Current,
    /// The parent directory (`..`).
    Parent,
    /// An ordinary file or directory name.
    Name(Seq<char>),
}

/// One component of a path.
#[derive(Debug, PartialEq, Eq)]
pub enum Component {
    Root,
    Current,
    Parent,
    Name(String),
}

impl View for Component {
    type V = Segment;

    open spec fn view(&self) -> Segment {
        match self {
            Component::Root => Segment::Root,
            Component::Current => Segment::Current,
            Component::Parent => Segment::Parent,
            Component::Name(n) => Segment::Name(n@),
        }
    }
}

impl Clone for Component {
    fn clone(&self) -> (r: Self)
        ensures
            r@ == self@,
    {
        match self {
            Component::Root => Component::Root,
            Component::Current => Component::Current,
            Component::Parent => Component::Parent,
            Component::Name(n) => Component::Name(n.clone()),
        }
    }
}

impl Component {
    /// Whether two components are the same.
    pub fn same(&self, other: &Component) -> (r: bool)
        ensures
            r == (self@ == other@),
    {
        match (self, other) {
            (Component::Root, Component::Root) => true,
            (Component::Current, Component::Current) => true,
            (Component::Parent, Component::Parent) => true,
            (Component::Name(a), Component::Name(b)) => *a == *b,
            _ => false,
        }
    }
}

/// A text that can stand as a name between two separators.
pub open spec fn valid_name(n: Seq<char>) -> bool {
    &&& n.len() > 0
    &&& forall|i: int| 0 <= i < n.len() ==> n[i] != '/'
    &&& n != seq!['.']
    &&& n != seq!['.', '.']
}

/// What every path holds: `Root` and `Current` stand first or not at all, and
/// names are valid.
pub open spec fn well_formed(p: Seq<Segment>) -> bool {
    &&& forall|i: int| 0 <= i < p.len() && (p[i] is Root || p[i] is Current) ==> i == 0
    &&& forall|i: int| 0 <= i < p.len() && p[i] is Name ==> valid_name(#[trigger] p[i]->0)
}

/// A path starts at the root.
pub open spec fn absolute(p: Seq<Segment>) -> bool {
    p.len() > 0 && p[0] is Root
}

/// `k` times the parent directory.
pub open spec fn ups(k: nat) -> Seq<Segment> {
    Seq::new(k, |i: int| Segment::Parent)
}

/// `tail` adjoined to `a`: an absolute `tail` replaces `a`; a leading `.`
/// of `tail` is dropped behind a non-empty `a`.
pub open spec fn join_spec(a: Seq<Segment>, tail: Seq<Segment>) -> Seq<Segment> {
    if absolute(tail) || a.len() == 0 {
        tail
    } else if tail.len() > 0 && tail[0] is Current {
        a + tail.drop_first()
    } else {
        a + tail
    }
}

/// The views of a vector of components.
pub open spec fn views(v: Seq<Component>) -> Seq<Segment> {
    Seq::new(v.len(), |i: int| v[i]@)
}

proof fn lemma_views_push(v: Seq<Component>, c: Component)
    ensures
        views(v.push(c)) == views(v).push(c@),
{
    assert(views(v.push(c)) =~= views(v).push(c@));
}

/// Appends copies of the components of `v` from `from` up to `to`.
fn append_range(out: &mut Vec<Component>, v: &Vec<Component>, from: usize, to: usize)
    requires
        from <= to <= v.len(),
    ensures
        views(final(out)@) == views(old(out)@) + views(v@).subrange(from as int, to as int),
{
    let ghost before = views(out@);
    let ghost all = views(v@);
    let mut i: usize = from;
    proof {
        assert(before + all.subrange(from as int, from as int) =~= before);
    }
    while i < to
        invariant
            from <= i <= to <= v.len(),
            all == views(v@),
            views(out@) == before + all.subrange(from as int, i as int),
        decreases to - i,
    {
        let c: Component = v[i].clone();
        proof {
            lemma_views_push(out@, c);
            assert((before + all.subrange(from as int, i as int)).push(c@) =~= before
                + all.subrange(from as int, i + 1));
        }
        out.push(c);
        i = i + 1;
    }
}

/// A path: a sequence of components.
#[derive(Debug, PartialEq, Eq)]
pub struct FsPath {
    components: Vec<Component>,
}

impl View for FsPath {
    type V = Seq<Segment>;

    closed spec fn view(&self) -> Seq<Segment> {
        views(self.components@)
    }
}

impl Clone for FsPath {
    fn clone(&self) -> (r: Self)
        ensures
            r@ == self@,
    {
        proof {
            use_type_invariant(self);
        }
        let mut out: Vec<Component> = Vec::new();
        append_range(&mut out, &self.components, 0, self.components.len());
        assert(views(out@) =~= views(self.components@));
        FsPath { components: out }
    }
}

impl FsPath {
    #[verifier::type_invariant]
    pub closed spec fn inv(&self) -> bool {
        well_formed(views(self.components@))
    }

    /// Every path is well formed: a call of this brings the fact to where it
    /// is needed.
    pub fn well_formed_by_construction(&self)
        ensures
            well_formed(self@),
    {
        proof {
            use_type_invariant(self);
        }
    }

    /// The path without components.
    pub fn empty() -> (r: FsPath)
        ensures
            r@ == Seq::<Segment>::empty(),
    {
        let r = FsPath { components: Vec::new() };
        assert(r@ =~= Seq::<Segment>::empty());
        r
    }

    /// The number of components.
    pub fn len(&self) -> (n: usize)
        ensures
            n == self@.len(),
    {
        self.components.len()
    }

    /// Whether the path starts at the root.
    pub fn is_absolute(&self) -> (r: bool)
        ensures
            r == absolute(self@),
    {
        if self.components.len() == 0 {
            false
        } else {
            match &self.components[0] {
                Component::Root => true,
                _ => false,
            }
        }
    }

    /// Whether `base` is a prefix of the path, component by component.
    pub fn starts_with(&self, base: &FsPath) -> (r: bool)
        ensures
            r == base@.is_prefix_of(self@),
    {
        if base.components.len() > self.components.len() {
            return false;
        }
        let mut i: usize = 0;
        while i < base.components.len()
            invariant
                i <= base.components.len() <= self.components.len(),
                forall|k: int| 0 <= k < i ==> base@[k] == self@[k],
            decreases base.components.len() - i,
        {
            if !self.components[i].same(&base.components[i]) {
                assert(base@[i as int] != self@[i as int]);
                return false;
            }
            i = i + 1;
        }
        assert(base@ =~= self@.subrange(0, base@.len() as int));
        true
    }

    /// The path without its last component; none for the empty path and for
    /// a path that ends in the root.
    pub fn parent(&self) -> (r: Option<FsPath>)
        ensures
            match r {
                Some(p) => self@.len() > 0 && !(self@.last() is Root) && p@ == self@.drop_last(),
                None => self@.len() == 0 || self@.last() is Root,
            },
    {
        proof {
            use_type_invariant(self);
        }
        let n: usize = self.components.len();
        if n == 0 {
            return None;
        }
        match &self.components[n - 1] {
            Component::Root => {
                return None;
            },
            _ => {},
        }
        let mut out: Vec<Component> = Vec::new();
        append_range(&mut out, &self.components, 0, n - 1);
        assert(views(out@) =~= views(self.components@).drop_last());
        Some(FsPath { components: out })
    }

    /// What is left of the path behind `base`, where `base` is a prefix of
    /// it.
    pub fn strip_prefix(&self, base: &FsPath) -> (r: Option<FsPath>)
        ensures
            match r {
                Some(rest) => base@.is_prefix_of(self@) && rest@ == self@.skip(base@.len() as int),
                None => !base@.is_prefix_of(self@),
            },
    {
        proof {
            use_type_invariant(self);
        }
        if !self.starts_with(base) {
            return None;
        }
        let mut out: Vec<Component> = Vec::new();
        append_range(&mut out, &self.components, base.components.len(), self.components.len());
        assert(views(out@) =~= views(self.components@).skip(base.components.len() as int));
        Some(FsPath { components: out })
    }

    /// The path with one more `..` at its end.
    pub fn with_parent(self) -> (r: FsPath)
        ensures
            r@ == self@.push(Segment::Parent),
    {
        proof {
            use_type_invariant(&self);
        }
        let ghost before = self.components@;
        let mut out: Vec<Component> = self.components;
        out.push(Component::Parent);
        proof {
            lemma_views_push(before, Component::Parent);
        }
        FsPath { components: out }
    }

    /// `tail` adjoined to the path.
    pub fn join(&self, tail: &FsPath) -> (r: FsPath)
        ensures
            r@ == join_spec(self@, tail@),
    {
        proof {
            use_type_invariant(self);
            use_type_invariant(tail);
        }
        if tail.is_absolute() || self.components.len() == 0 {
            return tail.clone();
        }
        let m: usize = tail.components.len();
        let skipped: usize = if m > 0 {
            match &tail.components[0] {
                Component::Current => 1,
                _ => 0,
            }
        } else {
            0
        };
        let mut out: Vec<Component> = Vec::new();
        append_range(&mut out, &self.components, 0, self.components.len());
        append_range(&mut out, &tail.components, skipped, m);
        proof {
            assert(views(out@) =~= join_spec(self@, tail@));
        }
        FsPath { components: out }
    }
}

/// `piece`, the text between two separators, taken up into the components
/// read so far: an empty piece and a `.` behind another component count for
/// nothing.
pub open spec fn add_piece(acc: Seq<Segment>, piece: Seq<char>) -> Seq<Segment> {
    if piece.len() == 0 {
        acc
    } else if piece == seq!['.'] {
        if acc.len() == 0 {
            seq![Segment::Current]
        } else {
            acc
        }
    } else if piece == seq!['.', '.'] {
        acc.push(Segment::Parent)
    } else {
        acc.push(Segment::Name(piece))
    }
}

/// The components of a text of which `acc` and the unfinished `piece` have
/// been read and `rest` is still to come.
pub open spec fn scan(acc: Seq<Segment>, piece: Seq<char>, rest: Seq<char>) -> Seq<Segment>
    decreases rest.len(),
{
    if rest.len() == 0 {
        add_piece(acc, piece)
    } else if rest[0] == '/' {
        scan(add_piece(acc, piece), Seq::empty(), rest.drop_first())
    } else {
        scan(acc, piece.push(rest[0]), rest.drop_first())
    }
}

/// The components of a path written with `/` between them: a leading `/`
/// is the root, repeated and trailing separators count for nothing, and `.`
/// is kept only at the start of a relative path.
pub open spec fn parse_spec(text: Seq<char>) -> Seq<Segment> {
    if text.len() > 0 && text[0] == '/' {
        scan(seq![Segment::Root], Seq::empty(), text)
    } else {
        scan(Seq::empty(), Seq::empty(), text)
    }
}

/// How a component is written.
pub open spec fn segment_text(c: Segment) -> Seq<char> {
    match c {
        Segment::Root => seq!['/'],
        Segment::Current => seq!['.'],
        Segment::Parent => seq!['.', '.'],
        Segment::Name(n) => n,
    }
}

/// The path written out: its components with `/` between them, and none
/// behind the root.
pub open spec fn render_spec(p: Seq<Segment>) -> Seq<char>
    decreases p.len(),
{
    if p.len() == 0 {
        Seq::empty()
    } else {
        let init = p.drop_last();
        if init.len() == 0 || init.last() is Root {
            render_spec(init) + segment_text(p.last())
        } else {
            render_spec(init) + seq!['/'] + segment_text(p.last())
        }
    }
}

/// Takes the piece of `text` from `from` up to `to` into `comps`; `chars`
/// holds the characters of `text`.
fn push_piece(
    comps: &mut Vec<Component>,
    text: &str,
    chars: &Vec<char>,
    from: usize,
    to: usize,
)
    requires
        chars@ == text@,
        from <= to <= text@.len(),
        well_formed(views(old(comps)@)),
        forall|k: int| from <= k < to ==> text@[k] != '/',
    ensures
        views(final(comps)@) == add_piece(
            views(old(comps)@),
            text@.subrange(from as int, to as int),
        ),
        well_formed(views(final(comps)@)),
{
    let ghost piece = text@.subrange(from as int, to as int);
    let ghost before = comps@;
    let len: usize = to - from;
    if len == 0 {
        return ;
    }
    let first: char = chars[from];
    assert(piece[0] == first);
    if len == 1 && first == '.' {
        assert(piece =~= seq!['.']);
        if comps.len() == 0 {
            comps.push(Component::Current);
            assert(views(comps@) =~= seq![Segment::Current]);
        }
        return ;
    }
    if len == 2 && first == '.' {
        let second: char = chars[from + 1];
        assert(piece[1] == second);
        if second == '.' {
            assert(piece =~= seq!['.', '.']);
            comps.push(Component::Parent);
            proof {
                lemma_views_push(before, Component::Parent);
            }
            return ;
        }
    }
    assert(piece != seq!['.']) by {
        if piece == seq!['.'] {
            assert(seq!['.'].len() == 1);
            assert(seq!['.'][0] == '.');
        }
    }
    assert(piece != seq!['.', '.']) by {
        if piece == seq!['.', '.'] {
            assert(seq!['.', '.'].len() == 2);
            assert(seq!['.', '.'][0] == '.');
            assert(seq!['.', '.'][1] == '.');
        }
    }
    let name: String = text.substring_char(from, to).to_owned();
    let c: Component = Component::Name(name);
    proof {
        lemma_views_push(before, c);
        assert(valid_name(piece));
    }
    comps.push(c);
}

impl FsPath {
    /// Reads a path from its text.
    pub fn parse(text: &str) -> (r: FsPath)
        ensures
            r@ == parse_spec(text@),
    {
        let chars: Vec<char> = chars_of(text);
        let n: usize = chars.len();
        let mut comps: Vec<Component> = Vec::new();
        if n > 0 && chars[0] == '/' {
            comps.push(Component::Root);
            assert(views(comps@) =~= seq![Segment::Root]);
        } else {
            assert(views(comps@) =~= Seq::<Segment>::empty());
        }
        let mut start: usize = 0;
        let mut i: usize = 0;
        proof {
            assert(text@.subrange(0, 0) =~= Seq::<char>::empty());
            assert(text@.skip(0) =~= text@);
        }
        while i < n
            invariant
                chars@ == text@,
                n == text@.len(),
                start <= i <= n,
                well_formed(views(comps@)),
                forall|k: int| start <= k < i ==> text@[k] != '/',
                parse_spec(text@) == scan(
                    views(comps@),
                    text@.subrange(start as int, i as int),
                    text@.skip(i as int),
                ),
            decreases n - i,
        {
            let c: char = chars[i];
            proof {
                assert(text@.skip(i as int)[0] == c);
                assert(text@.skip(i as int).drop_first() =~= text@.skip(i + 1));
            }
            if c == '/' {
                push_piece(&mut comps, text, &chars, start, i);
                start = i + 1;
                proof {
                    assert(text@.subrange(start as int, i + 1) =~= Seq::<char>::empty());
                }
            } else {
                proof {
                    assert(text@.subrange(start as int, i as int).push(c) =~= text@.subrange(
                        start as int,
                        i + 1,
                    ));
                }
            }
            i = i + 1;
        }
        push_piece(&mut comps, text, &chars, start, n);
        FsPath { components: comps }
    }

    /// Writes the path out.
    pub fn render(&self) -> (r: String)
        ensures
            r@ == render_spec(self@),
    {
        let mut out: String = String::new();
        let n: usize = self.components.len();
        let mut i: usize = 0;
        let mut after_root: bool = false;
        proof {
            assert(self@.take(0) =~= Seq::<Segment>::empty());
        }
        while i < n
            invariant
                n == self.components@.len(),
                n == self@.len(),
                i <= n,
                out@ == render_spec(self@.take(i as int)),
                after_root == (i > 0 && self@[i - 1] is Root),
            decreases n - i,
        {
            proof {
                assert(self@.take(i + 1).drop_last() =~= self@.take(i as int));
                assert(self@.take(i + 1).last() == self@[i as int]);
                if i > 0 {
                    assert(self@.take(i as int).last() == self@[i - 1]);
                }
                reveal_strlit("/");
                reveal_strlit(".");
                reveal_strlit("..");
                assert("/"@ =~= seq!['/']);
                assert("."@ =~= seq!['.']);
                assert(".."@ =~= seq!['.', '.']);
            }
            if i > 0 && !after_root {
                out.append("/");
            }
            match &self.components[i] {
                Component::Root => {
                    out.append("/");
                    after_root = true;
                },
                Component::Current => {
                    out.append(".");
                    after_root = false;
                },
                Component::Parent => {
                    out.append("..");
                    after_root = false;
                },
                Component::Name(name) => {
                    out.append(name.as_str());
                    after_root = false;
                },
            }
            i = i + 1;
        }
        proof {
            assert(self@.take(n as int) =~= self@);
        }
        out
    }
}

proof fn lemma_add_piece_well_formed(acc: Seq<Segment>, piece: Seq<char>)
    requires
        well_formed(acc),
        forall|i: int| 0 <= i < piece.len() ==> piece[i] != '/',
    ensures
        well_formed(add_piece(acc, piece)),
{
    let out = add_piece(acc, piece);
    assert forall|i: int| 0 <= i < out.len() && out[i] is Name implies valid_name(
        #[trigger] out[i]->0,
    ) by {
        if i < acc.len() {
            assert(out[i] == acc[i]);
        }
    }
}

proof fn lemma_scan_well_formed(acc: Seq<Segment>, piece: Seq<char>, rest: Seq<char>)
    requires
        well_formed(acc),
        forall|i: int| 0 <= i < piece.len() ==> piece[i] != '/',
    ensures
        well_formed(scan(acc, piece, rest)),
    decreases rest.len(),
{
    lemma_add_piece_well_formed(acc, piece);
    if rest.len() > 0 {
        if rest[0] == '/' {
            lemma_scan_well_formed(add_piece(acc, piece), Seq::empty(), rest.drop_first());
        } else {
            lemma_scan_well_formed(acc, piece.push(rest[0]), rest.drop_first());
        }
    }
}

/// Whatever the text, what is read from it is a well-formed path.
pub proof fn lemma_parse_well_formed(text: Seq<char>)
    ensures
        well_formed(parse_spec(text)),
{
    lemma_scan_well_formed(seq![Segment::Root], Seq::empty(), text);
    lemma_scan_well_formed(Seq::empty(), Seq::empty(), text);
}

proof fn lemma_scan_chunk(acc: Seq<Segment>, piece: Seq<char>, chunk: Seq<char>, rest: Seq<char>)
    requires
        forall|i: int| 0 <= i < chunk.len() ==> chunk[i] != '/',
    ensures
        scan(acc, piece, chunk + rest) == scan(acc, piece + chunk, rest),
    decreases chunk.len(),
{
    if chunk.len() == 0 {
        assert(chunk + rest =~= rest);
        assert(piece + chunk =~= piece);
    } else {
        let whole = chunk + rest;
        assert(whole[0] == chunk[0]);
        assert(whole.drop_first() =~= chunk.drop_first() + rest);
        lemma_scan_chunk(acc, piece.push(chunk[0]), chunk.drop_first(), rest);
        assert(piece.push(chunk[0]) + chunk.drop_first() =~= piece + chunk);
    }
}

proof fn lemma_scan_separator(acc: Seq<Segment>, piece: Seq<char>, rest: Seq<char>)
    ensures
        scan(acc, piece, seq!['/'] + rest) == scan(add_piece(acc, piece), Seq::empty(), rest),
{
    let whole = seq!['/'] + rest;
    assert(whole[0] == '/');
    assert(whole.drop_first() =~= rest);
}

/// What is written for a component that is not the root holds no
/// separator, and reading it back gives the component.
proof fn lemma_piece_of_segment(front: Seq<Segment>, c: Segment)
    requires
        well_formed(front.push(c)),
        !(c is Root),
    ensures
        forall|i: int| 0 <= i < segment_text(c).len() ==> segment_text(c)[i] != '/',
        segment_text(c).len() > 0,
        add_piece(front, segment_text(c)) == front.push(c),
{
    let p = front.push(c);
    assert(p[front.len() as int] == c);
    match c {
        Segment::Current => {
            assert(front.len() == 0);
            assert(front.push(c) =~= seq![Segment::Current]);
        },
        Segment::Parent => {
            assert(seq!['.', '.'].len() == 2);
            assert(seq!['.'].len() == 1);
        },
        Segment::Name(n) => {
            assert(valid_name(p[front.len() as int]->0));
        },
        Segment::Root => {},
    }
}

/// The components read so far and the unfinished piece, once the text of a
/// path has been read.
spec fn read_state(p: Seq<Segment>) -> (Seq<Segment>, Seq<char>) {
    if p.len() == 0 {
        (Seq::empty(), Seq::empty())
    } else if p.last() is Root {
        (p, Seq::empty())
    } else {
        (p.drop_last(), segment_text(p.last()))
    }
}

spec fn read_start(p: Seq<Segment>) -> Seq<Segment> {
    if absolute(p) {
        seq![Segment::Root]
    } else {
        Seq::empty()
    }
}

proof fn lemma_well_formed_prefix(p: Seq<Segment>)
    requires
        well_formed(p),
        p.len() > 0,
    ensures
        well_formed(p.drop_last()),
{
    let q = p.drop_last();
    assert forall|i: int| 0 <= i < q.len() && q[i] is Name implies valid_name(
        #[trigger] q[i]->0,
    ) by {
        assert(q[i] == p[i]);
    }
}

proof fn lemma_scan_rendered(p: Seq<Segment>, rest: Seq<char>)
    requires
        well_formed(p),
    ensures
        scan(read_start(p), Seq::empty(), render_spec(p) + rest) == scan(
            read_state(p).0,
            read_state(p).1,
            rest,
        ),
    decreases p.len(),
{
    let none = Seq::<char>::empty();
    if p.len() == 0 {
        assert(render_spec(p) + rest =~= rest);
    } else {
        let q = p.drop_last();
        let c = p.last();
        let t = segment_text(c);
        assert(q.push(c) =~= p);
        lemma_well_formed_prefix(p);
        if q.len() == 0 {
            assert(render_spec(q) =~= none);
            assert(render_spec(p) =~= t);
            if c is Root {
                lemma_scan_separator(seq![Segment::Root], none, rest);
                assert(p =~= seq![Segment::Root]);
            } else {
                lemma_piece_of_segment(q, c);
                lemma_scan_chunk(Seq::empty(), none, t, rest);
                assert(none + t =~= t);
                assert(q =~= Seq::<Segment>::empty());
            }
        } else {
            assert(p[q.len() as int] == c);
            assert(!(c is Root));
            assert(q[0] == p[0]);
            assert(read_start(p) == read_start(q));
            lemma_piece_of_segment(q, c);
            if q.last() is Root {
                assert(render_spec(p) + rest =~= render_spec(q) + (t + rest));
                lemma_scan_rendered(q, t + rest);
                lemma_scan_chunk(q, none, t, rest);
                assert(none + t =~= t);
            } else {
                assert(render_spec(p) + rest =~= render_spec(q) + (seq!['/'] + (t + rest)));
                lemma_scan_rendered(q, seq!['/'] + (t + rest));
                lemma_scan_separator(q.drop_last(), segment_text(q.last()), t + rest);
                lemma_well_formed_prefix(q);
                assert(q.drop_last().push(q.last()) =~= q);
                lemma_piece_of_segment(q.drop_last(), q.last());
                lemma_scan_chunk(q, none, t, rest);
                assert(none + t =~= t);
            }
        }
    }
}

proof fn lemma_rendered_start(p: Seq<Segment>)
    requires
        well_formed(p),
        p.len() > 0,
    ensures
        render_spec(p).len() > 0,
        (render_spec(p)[0] == '/') == absolute(p),
    decreases p.len(),
{
    let q = p.drop_last();
    let c = p.last();
    assert(q.push(c) =~= p);
    lemma_well_formed_prefix(p);
    if q.len() == 0 {
        assert(render_spec(q) =~= Seq::<char>::empty());
        assert(render_spec(p) =~= segment_text(c));
        assert(p[0] == c);
        if !(c is Root) {
            lemma_piece_of_segment(q, c);
        }
    } else {
        lemma_rendered_start(q);
        assert(q[0] == p[0]);
        assert(render_spec(p)[0] == render_spec(q)[0]);
    }
}

/// Reading what was written gives the path again.
pub proof fn lemma_parse_render(p: Seq<Segment>)
    requires
        well_formed(p),
    ensures
        parse_spec(render_spec(p)) == p,
{
    let none = Seq::<char>::empty();
    let text = render_spec(p);
    assert(text + none =~= text);
    lemma_scan_rendered(p, none);
    if p.len() > 0 {
        lemma_rendered_start(p);
        if !(p.last() is Root) {
            lemma_well_formed_prefix(p);
            assert(p.drop_last().push(p.last()) =~= p);
            lemma_piece_of_segment(p.drop_last(), p.last());
        }
    }
}

/// The value of an optional path.
pub open spec fn opt_path(o: Option<FsPath>) -> Option<Seq<Segment>> {
    match o {
        Some(p) => Some(p@),
        None => None,
    }
}

/// A copy of an optional path.
pub fn clone_opt_path(o: &Option<FsPath>) -> (r: Option<FsPath>)
    ensures
        opt_path(r) == opt_path(*o),
{
    match o {
        Some(p) => Some(p.clone()),
        None => None,
    }
}

/// The number of leading components that two paths share.
pub open spec fn common_prefix_len(a: Seq<Segment>, b: Seq<Segment>) -> nat
    decreases a.len(),
{
    if a.len() > 0 && b.len() > 0 && a[0] == b[0] {
        1 + common_prefix_len(a.drop_first(), b.drop_first())
    } else {
        0
    }
}

/// `target` as seen from `base`: one `..` for each component of `base`
/// behind what the two share, then the rest of `target`. Where they share
/// nothing and `base` is absolute, no walk upward from `base` reaches
/// `target`, and `target` stands unchanged.
pub open spec fn relativize_spec(target: Seq<Segment>, base: Seq<Segment>) -> Seq<Segment> {
    let shared = common_prefix_len(target, base);
    if shared == 0 && absolute(base) {
        target
    } else {
        join_spec(ups((base.len() - shared) as nat), target.skip(shared as int))
    }
}

/// The shared prefix is no longer than either path.
pub proof fn lemma_common_prefix_bound(a: Seq<Segment>, b: Seq<Segment>)
    ensures
        common_prefix_len(a, b) <= a.len(),
        common_prefix_len(a, b) <= b.len(),
    decreases a.len(),
{
    if a.len() > 0 && b.len() > 0 && a[0] == b[0] {
        lemma_common_prefix_bound(a.drop_first(), b.drop_first());
    }
}

/// The first `n` components of `b` are a prefix of `a` exactly when `n` is
/// at most the number of components that the two share.
pub proof fn lemma_common_prefix(a: Seq<Segment>, b: Seq<Segment>, n: int)
    requires
        0 <= n <= b.len(),
    ensures
        b.take(n).is_prefix_of(a) <==> n <= common_prefix_len(a, b),
    decreases a.len(),
{
    if n == 0 {
        assert(b.take(0) =~= a.subrange(0, 0));
    } else if a.len() > 0 && a[0] == b[0] {
        let a1 = a.drop_first();
        let b1 = b.drop_first();
        lemma_common_prefix(a1, b1, n - 1);
        let bn = b.take(n);
        let an = a.subrange(0, n);
        let bm = b1.take(n - 1);
        let am = a1.subrange(0, n - 1);
        if bn.is_prefix_of(a) {
            assert(bn =~= an);
            assert forall|k: int| 0 <= k < n - 1 implies #[trigger] bm[k] == am[k] by {
                assert(bn[k + 1] == an[k + 1]);
            }
            assert(bm =~= am);
        }
        if bm.is_prefix_of(a1) {
            assert(bm =~= am);
            assert forall|k: int| 0 <= k < n implies #[trigger] bn[k] == an[k] by {
                if k > 0 {
                    assert(bm[k - 1] == am[k - 1]);
                }
            }
            assert(bn =~= an);
        }
    } else {
        if b.take(n).is_prefix_of(a) {
            assert(b.take(n) =~= a.subrange(0, n));
            assert(b.take(n)[0] == a.subrange(0, n)[0]);
        }
    }
}

/// Converts `target_path` to a path relative to `current_path`, walking
/// upward from `current_path` until `target_path` lies below.
pub fn convert_absolute_path_to_relative(target_path: &FsPath, current_path: &FsPath) -> (r:
    FsPath)
    ensures
        r@ == relativize_spec(target_path@, current_path@),
{
    let ghost t = target_path@;
    let ghost b = current_path@;
    let mut result: FsPath = FsPath::empty();
    let mut current: FsPath = current_path.clone();
    let ghost mut n: int = b.len() as int;
    proof {
        use_type_invariant(current_path);
        assert(b.take(n) =~= b);
        assert(ups(0) =~= Seq::<Segment>::empty());
    }
    while !target_path.starts_with(&current)
        invariant
            t == target_path@,
            b == current_path@,
            well_formed(b),
            0 <= n <= b.len(),
            current@ == b.take(n),
            result@ == ups((b.len() - n) as nat),
            forall|m: int| n < m <= b.len() ==> !b.take(m).is_prefix_of(t),
            absolute(b) ==> n >= 1,
        decreases n,
    {
        proof {
            assert(n > 0) by {
                if n == 0 {
                    assert(b.take(0) =~= t.subrange(0, 0));
                }
            }
            assert(ups((b.len() - n) as nat).push(Segment::Parent) =~= ups(
                (b.len() - n + 1) as nat,
            ));
        }
        result = result.with_parent();
        match current.parent() {
            Some(p) => {
                proof {
                    assert(b.take(n).drop_last() =~= b.take(n - 1));
                    assert(b.take(n).last() == b[n - 1]);
                    n = n - 1;
                }
                current = p;
            },
            None => {
                proof {
                    assert(b.take(n).last() == b[n - 1]);
                    assert(n == 1);
                    lemma_common_prefix(t, b, 1);
                }
                return target_path.clone();
            },
        }
    }
    proof {
        lemma_common_prefix(t, b, n);
        lemma_common_prefix_bound(t, b);
        if n < b.len() {
            lemma_common_prefix(t, b, n + 1);
        }
        assert(n == common_prefix_len(t, b));
    }
    match target_path.strip_prefix(&current) {
        Some(rest) => result.join(&rest),
        None => target_path.clone(),
    }
}

/// A path that runs from the root through names only.
pub open spec fn plain_absolute(p: Seq<Segment>) -> bool {
    &&& absolute(p)
    &&& forall|i: int| 1 <= i < p.len() ==> p[i] is Name
}

/// One step of lexical normalisation: `c` applied to what is kept so far.
pub open spec fn normalize_step(kept: Seq<Segment>, c: Segment) -> Seq<Segment> {
    match c {
        Segment::Root => seq![Segment::Root],
        Segment::Current => kept,
        Segment::Parent => if kept.len() > 0 && kept.last() is Name {
            kept.drop_last()
        } else if kept.len() > 0 && kept.last() is Root {
            kept
        } else {
            kept.push(Segment::Parent)
        },
        Segment::Name(_) => kept.push(c),
    }
}

/// The components of `p` applied one by one to `kept`.
pub open spec fn normalize_onto(kept: Seq<Segment>, p: Seq<Segment>) -> Seq<Segment>
    decreases p.len(),
{
    if p.len() == 0 {
        kept
    } else {
        normalize_step(normalize_onto(kept, p.drop_last()), p.last())
    }
}

/// Lexical normalisation: `.` is dropped, and `..` cancels the name before
/// it and stays where there is none (at the root it is dropped).
pub open spec fn normalize(p: Seq<Segment>) -> Seq<Segment> {
    normalize_onto(Seq::empty(), p)
}

proof fn lemma_normalize_concat(kept: Seq<Segment>, x: Seq<Segment>, y: Seq<Segment>)
    ensures
        normalize_onto(kept, x + y) == normalize_onto(normalize_onto(kept, x), y),
    decreases y.len(),
{
    if y.len() == 0 {
        assert(x + y =~= x);
    } else {
        assert((x + y).drop_last() =~= x + y.drop_last());
        lemma_normalize_concat(kept, x, y.drop_last());
    }
}

proof fn lemma_normalize_plain(p: Seq<Segment>, n: int)
    requires
        plain_absolute(p),
        1 <= n <= p.len(),
    ensures
        normalize(p.take(n)) == p.take(n),
    decreases n,
{
    let q = p.take(n);
    assert(q.drop_last() =~= p.take(n - 1));
    if n == 1 {
        assert(normalize_onto(Seq::empty(), q.drop_last()) == Seq::<Segment>::empty());
        assert(q =~= seq![Segment::Root]);
    } else {
        lemma_normalize_plain(p, n - 1);
        assert(q.last() is Name);
        assert(p.take(n - 1).push(q.last()) =~= q);
    }
}

proof fn lemma_normalize_ups(p: Seq<Segment>, n: int, k: nat)
    requires
        plain_absolute(p),
        1 <= n,
        n + k <= p.len(),
    ensures
        normalize_onto(p.take(n + k), ups(k)) == p.take(n),
    decreases k,
{
    if k > 0 {
        assert(ups(k).drop_last() =~= ups((k - 1) as nat));
        lemma_normalize_ups(p, n + 1, (k - 1) as nat);
        assert(p.take(n + 1).last() is Name);
        assert(p.take(n + 1).drop_last() =~= p.take(n));
    }
}

proof fn lemma_relative_tail(target: Seq<Segment>, base: Seq<Segment>)
    requires
        well_formed(target),
        absolute(target),
        absolute(base),
    ensures
        common_prefix_len(target, base) >= 1,
        common_prefix_len(target, base) <= base.len(),
        common_prefix_len(target, base) <= target.len(),
        relativize_spec(target, base) == ups(
            (base.len() - common_prefix_len(target, base)) as nat,
        ) + target.skip(common_prefix_len(target, base) as int),
        join_spec(base, relativize_spec(target, base)) == base + relativize_spec(target, base),
{
    let c = common_prefix_len(target, base) as int;
    lemma_common_prefix_bound(target, base);
    let k = (base.len() - c) as nat;
    let rest = target.skip(c);
    if rest.len() > 0 {
        assert(rest[0] == target[c]);
    }
    let rel = relativize_spec(target, base);
    assert(rel == join_spec(ups(k), rest));
    assert(join_spec(ups(k), rest) =~= ups(k) + rest);
    if rel.len() > 0 {
        if k > 0 {
            assert(rel[0] == ups(k)[0]);
        } else {
            assert(rel[0] == rest[0]);
        }
    }
}

/// Relativising and joining back gives the target again: for an absolute
/// `target` and a `base` that runs from the root through names only, the
/// result of relativising, joined onto `base` and normalised, is `target`
/// normalised; and a `target` that itself runs through names only is its own
/// normal form.
pub proof fn lemma_relativize_round_trip(target: Seq<Segment>, base: Seq<Segment>)
    requires
        well_formed(target),
        absolute(target),
        plain_absolute(base),
    ensures
        normalize(join_spec(base, relativize_spec(target, base))) == normalize(target),
        plain_absolute(target) ==> normalize(target) == target,
{
    let c = common_prefix_len(target, base) as int;
    let k = (base.len() - c) as nat;
    let rest = target.skip(c);
    let empty = Seq::<Segment>::empty();
    lemma_relative_tail(target, base);
    let joined = join_spec(base, relativize_spec(target, base));
    assert(joined =~= (base + ups(k)) + rest);
    assert(base.take(c) == target.take(c)) by {
        lemma_common_prefix(target, base, c);
        assert(base.take(c) =~= target.subrange(0, c));
    }
    assert(normalize_onto(empty, base + ups(k)) == base.take(c)) by {
        lemma_normalize_concat(empty, base, ups(k));
        assert(base.take(base.len() as int) =~= base);
        lemma_normalize_plain(base, base.len() as int);
        lemma_normalize_ups(base, c, k);
    }
    assert(normalize_onto(empty, target.take(c)) == target.take(c)) by {
        lemma_normalize_plain(base, c);
    }
    assert(normalize(joined) == normalize_onto(base.take(c), rest)) by {
        lemma_normalize_concat(empty, base + ups(k), rest);
    }
    assert(normalize(target) == normalize_onto(target.take(c), rest)) by {
        assert(target =~= target.take(c) + rest);
        lemma_normalize_concat(empty, target.take(c), rest);
    }
    if plain_absolute(target) {
        assert(target.take(target.len() as int) =~= target);
        lemma_normalize_plain(target, target.len() as int);
    }
}

} // verus!
