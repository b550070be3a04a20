//! Templates: what they are made of, and which of them are not rendered. Partials
//! can include one another, and then rendering has no end; and a local variable
//! cannot be named `this`.

use crate::bindings::{compile, parts};
use vstd::prelude::*;
use vstd::string::StrSliceExecFns;

verus! {

/// A part of a template, as far as partials go. A name is `None` where it is not
/// written down but computed.
pub enum Part {
    /// Text, a value, or anything else that holds no template.
    Plain,
    /// A tag that includes the partial of a name.
    Partial(Option<String>),
    /// A block of a helper, with what stands in it and behind its `else`.
    Block(Vec<Part>, Vec<Part>),
    /// A block that defines the partial of a name.
    Definition(Option<String>, Vec<Part>),
    /// A tag that includes the partial of a name, and hands it a block. Where there
    /// is no such partial, the block stands in for it.
    PartialBlock(Option<String>, Vec<Part>),
}

/// What a partial goes by: a name that is written down, one that is computed, or
/// none because it is a block that was handed over.
pub enum Source {
    Named(String),
    Computed,
    Handed,
}

/// What a partial goes by.
pub enum SourceView {
    Named(Seq<char>),
    Computed,
    Handed,
}

/// What can be included: what it goes by, and the names that it includes itself.
pub struct Piece {
    pub source: Source,
    pub tags: Vec<Option<String>>,
}

/// What can be included.
#[verifier::ext_equal]
pub struct PieceView {
    pub source: SourceView,
    pub tags: Seq<Option<Seq<char>>>,
}

impl View for Source {
    type V = SourceView;

    open spec fn view(&self) -> SourceView {
        match self {
            Source::Named(name) => SourceView::Named(name@),
            Source::Computed => SourceView::Computed,
            Source::Handed => SourceView::Handed,
        }
    }
}

impl View for Piece {
    type V = PieceView;

    open spec fn view(&self) -> PieceView {
        PieceView { source: self.source@, tags: tag_texts(self.tags@) }
    }
}

/// A name as text.
pub open spec fn name_text(name: Option<String>) -> Option<Seq<char>> {
    match name {
        Some(name) => Some(name@),
        None => None,
    }
}

/// Names as texts.
pub open spec fn tag_texts(names: Seq<Option<String>>) -> Seq<Option<Seq<char>>> {
    names.map_values(|name: Option<String>| name_text(name))
}

/// Pieces as what they hold.
pub open spec fn piece_views(pieces: Seq<Piece>) -> Seq<PieceView> {
    pieces.map_values(|piece: Piece| piece@)
}

/// What a definition of a name goes by.
pub open spec fn source_of(name: Option<String>) -> SourceView {
    match name {
        Some(name) => SourceView::Named(name@),
        None => SourceView::Computed,
    }
}

/// The names that some parts include where they are rendered. A definition
/// includes nothing by itself.
pub open spec fn tags(parts: Seq<Part>) -> Seq<Option<Seq<char>>>
    decreases parts,
{
    if parts.len() == 0 {
        Seq::empty()
    } else {
        tags(parts.drop_last()) + part_tags(parts.last())
    }
}

/// The names that a part includes where it is rendered.
pub open spec fn part_tags(part: Part) -> Seq<Option<Seq<char>>>
    decreases part,
{
    match part {
        Part::Plain => Seq::empty(),
        Part::Partial(name) => seq![name_text(name)],
        Part::Block(body, otherwise) => tags(body@) + tags(otherwise@),
        Part::Definition(_, _) => Seq::empty(),
        Part::PartialBlock(name, body) => seq![name_text(name)] + tags(body@),
    }
}

/// What can be included in some parts: the definitions, and the blocks that are
/// handed to partials.
pub open spec fn pieces(parts: Seq<Part>) -> Seq<PieceView>
    decreases parts,
{
    if parts.len() == 0 {
        Seq::empty()
    } else {
        pieces(parts.drop_last()) + part_pieces(parts.last())
    }
}

/// What can be included in a part.
pub open spec fn part_pieces(part: Part) -> Seq<PieceView>
    decreases part,
{
    match part {
        Part::Plain => Seq::empty(),
        Part::Partial(_) => Seq::empty(),
        Part::Block(body, otherwise) => pieces(body@) + pieces(otherwise@),
        Part::Definition(name, body) => seq![
            PieceView { source: source_of(name), tags: tags(body@) },
        ] + pieces(body@),
        Part::PartialBlock(_, body) => seq![
            PieceView { source: SourceView::Handed, tags: tags(body@) },
        ] + pieces(body@),
    }
}

/// Whether a tag can include what goes by something. What is computed can be
/// anything.
pub open spec fn reaches(tag: Option<Seq<char>>, source: SourceView) -> bool {
    match tag {
        None => true,
        Some(name) => match source {
            SourceView::Named(own) => name == own,
            SourceView::Computed => true,
            SourceView::Handed => name == "@partial-block"@,
        },
    }
}

/// Whether one of some tags can include one of some marked pieces.
pub open spec fn reaches_marked(
    tags: Seq<Option<Seq<char>>>,
    pieces: Seq<PieceView>,
    marks: Seq<bool>,
) -> bool {
    exists|t: int, i: int|
        0 <= t < tags.len() && 0 <= i < pieces.len() && marks[i] && reaches(
            #[trigger] tags[t],
            (#[trigger] pieces[i]).source,
        )
}

/// Whether every marked piece can include a marked one, and so on without end.
pub open spec fn keep_including(pieces: Seq<PieceView>, marks: Seq<bool>) -> bool {
    &&& marks.len() == pieces.len()
    &&& forall|i: int|
        0 <= i < pieces.len() && marks[i] ==> reaches_marked(
            (#[trigger] pieces[i]).tags,
            pieces,
            marks,
        )
}

/// Whether some tags can include a piece that goes on including without end.
pub open spec fn lead_on(tags: Seq<Option<Seq<char>>>, pieces: Seq<PieceView>) -> bool {
    exists|marks: Seq<bool>| #[trigger]
        keep_including(pieces, marks) && reaches_marked(tags, pieces, marks)
}

/// Whether a template includes partials that include one another without end.
pub open spec fn is_circular(template: Seq<char>) -> bool {
    crate::bindings::outlined(template) matches Some(parts) && lead_on(tags(parts), pieces(parts))
}

/// Whether some parts hold a tag that includes a partial, at any depth.
pub open spec fn includes(parts: Seq<Part>) -> bool
    decreases parts,
{
    exists|i: int| 0 <= i < parts.len() && part_includes(#[trigger] parts[i])
}

/// Whether a part is or holds a tag that includes a partial.
pub open spec fn part_includes(part: Part) -> bool
    decreases part,
{
    match part {
        Part::Plain => false,
        Part::Partial(_) => true,
        Part::Block(body, otherwise) => includes(body@) || includes(otherwise@),
        Part::Definition(_, body) => includes(body@),
        Part::PartialBlock(_, _) => true,
    }
}

/// Whether a character may stand between the braces that open a tag and what
/// tells its kind.
pub open spec fn is_lead(character: char) -> bool {
    ||| character == ' '
    ||| character == '\t'
    ||| character == '\n'
    ||| character == '\r'
    ||| character == '~'
    ||| character == '#'
}

/// Whether a tag opens at one position of a text, and nothing but leading
/// characters follow up to another.
pub open spec fn opens(text: Seq<char>, from: int, to: int) -> bool {
    &&& 0 <= from
    &&& from + 2 <= to <= text.len()
    &&& text[from] == '{'
    &&& text[from + 1] == '{'
    &&& forall|k: int| from + 2 <= k < to ==> is_lead(#[trigger] text[k])
}

/// Whether a text holds what a tag that includes a partial begins with.
pub open spec fn mentions_partial(text: Seq<char>) -> bool {
    exists|from: int, to: int| #[trigger]
        opens(text, from, to) && to < text.len() && text[to] == '>'
}

/// Whether a character can be one of a name.
pub open spec fn is_name_char(character: char) -> bool {
    ||| 'a' <= character <= 'z'
    ||| 'A' <= character <= 'Z'
    ||| '0' <= character <= '9'
    ||| character == '-'
    ||| character == '_'
    ||| character == '$'
    ||| character >= '\u{80}'
}

/// Whether the letters of `this` stand at a position of a text.
pub open spec fn spells_this(text: Seq<char>, at: int) -> bool {
    &&& 0 <= at
    &&& at + 4 <= text.len()
    &&& text[at] == 't'
    &&& text[at + 1] == 'h'
    &&& text[at + 2] == 'i'
    &&& text[at + 3] == 's'
}

/// Where the name `this` ends that stands at a position of a text, in brackets or
/// by itself, and `None` where none stands there.
pub open spec fn after_this(text: Seq<char>, at: int) -> Option<int> {
    if 0 <= at < text.len() && text[at] == '[' {
        if spells_this(text, at + 1) && at + 5 < text.len() && text[at + 5] == ']' {
            Some(at + 6)
        } else {
            None
        }
    } else if spells_this(text, at) && (at + 4 == text.len() || !is_name_char(text[at + 4])) {
        Some(at + 4)
    } else {
        None
    }
}

/// Whether a path goes on with another name at a position of a text.
pub open spec fn goes_on(text: Seq<char>, at: int) -> bool {
    &&& 0 <= at
    &&& at + 1 < text.len()
    &&& text[at] == '.' || text[at] == '/'
    &&& text[at + 1] == '[' || is_name_char(text[at + 1])
}

/// Whether the names of a path, from a position of a text on, are all `this`.
pub open spec fn only_this(text: Seq<char>, at: int) -> bool
    decreases text.len() - at,
{
    match after_this(text, at) {
        Some(end) => goes_on(text, end) ==> only_this(text, end + 1),
        None => false,
    }
}

/// Whether the path of a local variable begins at one position of a text, and has
/// not come to a name up to another.
pub open spec fn steps(text: Seq<char>, from: int, to: int) -> bool {
    &&& 0 <= from < to <= text.len()
    &&& text[from] == '@'
    &&& forall|k: int| from < k < to ==> (#[trigger] text[k] == '.' || text[k] == '/')
}

/// Whether what a tag holds can begin at a position of a text: behind two braces,
/// unless they are escaped or begin a comment.
pub open spec fn begins(text: Seq<char>, at: int) -> bool {
    &&& 2 <= at < text.len()
    &&& text[at - 1] == '{'
    &&& text[at - 2] == '{'
    &&& text[at] != '{'
    &&& text[at] != '!'
    &&& !(at >= 3 && text[at - 3] == '\\' && (at == 3 || text[at - 4] != '\\'))
}

/// Whether a part of a text holds nothing that can hide braces but plain strings.
pub open spec fn is_tame(text: Seq<char>, from: int, to: int) -> bool {
    forall|k: int|
        from <= k < to ==> (#[trigger] text[k] != '[' && text[k] != '\'' && text[k] != '{'
            && text[k] != '\\')
}

/// Whether a part of a text holds an odd number of quotes.
pub open spec fn is_quoting(text: Seq<char>, from: int, to: int) -> bool
    decreases to - from,
{
    if to <= from {
        false
    } else {
        is_quoting(text, from, to - 1) != (text[to - 1] == '"')
    }
}

/// Whether a tag that begins at one position of a text surely ends at another.
pub open spec fn ends(text: Seq<char>, from: int, at: int) -> bool {
    &&& from <= at
    &&& at + 1 < text.len()
    &&& text[at] == '}'
    &&& text[at + 1] == '}'
    &&& is_tame(text, from, at)
    &&& !is_quoting(text, from, at)
}

/// Whether a tag that begins at one position of a text can go on to another, with
/// that one in no string.
pub open spec fn may_reach(text: Seq<char>, from: int, at: int) -> bool {
    &&& from <= at
    &&& forall|e: int| from <= e && e + 2 <= at ==> !#[trigger] ends(text, from, e)
    &&& !(is_tame(text, from, at) && is_quoting(text, from, at))
}

/// Whether a position of a text can be inside a tag.
pub open spec fn may_be_code(text: Seq<char>, at: int) -> bool {
    exists|from: int| #[trigger] begins(text, from) && may_reach(text, from, at)
}

/// Whether a text can hold a tag with the path of a local variable that names
/// nothing but `this`.
pub open spec fn names_local_this(text: Seq<char>) -> bool {
    exists|from: int, to: int| #[trigger]
        steps(text, from, to) && only_this(text, to) && may_be_code(text, from)
}

/// A name of one's own.
fn same_name(name: &Option<String>) -> (copy: Option<String>)
    ensures
        copy == *name,
{
    match name {
        Some(name) => Some(name.clone()),
        None => None,
    }
}

/// Adds the names that some parts include.
fn collect_tags(parts: &Vec<Part>, found: &mut Vec<Option<String>>)
    ensures
        tag_texts(final(found)@) == tag_texts(old(found)@) + tags(parts@),
    decreases parts,
{
    let ghost before = tag_texts(found@);
    let mut i: usize = 0;
    assert(parts@.take(0) =~= Seq::empty());
    while i < parts.len()
        invariant
            i <= parts.len(),
            tag_texts(found@) == before + tags(parts@.take(i as int)),
        decreases parts.len() - i,
    {
        collect_part_tags(&parts[i], found);
        i += 1;
        proof {
            let taken = parts@.take(i as int);
            assert(taken.drop_last() =~= parts@.take(i - 1));
            assert(taken.last() == parts@[i - 1]);
        }
    }
    assert(parts@.take(parts@.len() as int) =~= parts@);
}

/// Adds the names that a part includes.
fn collect_part_tags(part: &Part, found: &mut Vec<Option<String>>)
    ensures
        tag_texts(final(found)@) == tag_texts(old(found)@) + part_tags(*part),
    decreases part,
{
    let ghost before = found@;
    match part {
        Part::Plain => {},
        Part::Partial(name) => {
            let copy = same_name(name);
            found.push(copy);
            assert(tag_texts(found@) =~= tag_texts(before) + seq![name_text(*name)]);
        },
        Part::Block(body, otherwise) => {
            collect_tags(body, found);
            collect_tags(otherwise, found);
        },
        Part::Definition(_, _) => {},
        Part::PartialBlock(name, body) => {
            let copy = same_name(name);
            found.push(copy);
            assert(tag_texts(found@) =~= tag_texts(before) + seq![name_text(*name)]);
            collect_tags(body, found);
        },
    }
    assert(tag_texts(found@) =~= tag_texts(before) + part_tags(*part));
}

/// The names that some parts include.
pub fn tags_of(parts: &Vec<Part>) -> (found: Vec<Option<String>>)
    ensures
        tag_texts(found@) == tags(parts@),
{
    let mut found: Vec<Option<String>> = Vec::new();
    collect_tags(parts, &mut found);
    assert(tag_texts(found@) =~= tags(parts@));
    found
}

/// Adds what can be included in some parts.
fn collect_pieces(parts: &Vec<Part>, found: &mut Vec<Piece>)
    ensures
        piece_views(final(found)@) == piece_views(old(found)@) + pieces(parts@),
    decreases parts,
{
    let ghost before = piece_views(found@);
    let mut i: usize = 0;
    assert(parts@.take(0) =~= Seq::empty());
    while i < parts.len()
        invariant
            i <= parts.len(),
            piece_views(found@) == before + pieces(parts@.take(i as int)),
        decreases parts.len() - i,
    {
        collect_part_pieces(&parts[i], found);
        i += 1;
        proof {
            let taken = parts@.take(i as int);
            assert(taken.drop_last() =~= parts@.take(i - 1));
            assert(taken.last() == parts@[i - 1]);
        }
    }
    assert(parts@.take(parts@.len() as int) =~= parts@);
}

/// Adds what can be included in a part.
fn collect_part_pieces(part: &Part, found: &mut Vec<Piece>)
    ensures
        piece_views(final(found)@) == piece_views(old(found)@) + part_pieces(*part),
    decreases part,
{
    let ghost before = found@;
    match part {
        Part::Plain => {},
        Part::Partial(_) => {},
        Part::Block(body, otherwise) => {
            collect_pieces(body, found);
            collect_pieces(otherwise, found);
        },
        Part::Definition(name, body) => {
            let source = match name {
                Some(name) => Source::Named(name.clone()),
                None => Source::Computed,
            };
            let own = tags_of(body);
            found.push(Piece { source, tags: own });
            assert(piece_views(found@) =~= piece_views(before) + seq![
                PieceView { source: source_of(*name), tags: tags(body@) },
            ]);
            collect_pieces(body, found);
        },
        Part::PartialBlock(_, body) => {
            let own = tags_of(body);
            found.push(Piece { source: Source::Handed, tags: own });
            assert(piece_views(found@) =~= piece_views(before) + seq![
                PieceView { source: SourceView::Handed, tags: tags(body@) },
            ]);
            collect_pieces(body, found);
        },
    }
    assert(piece_views(found@) =~= piece_views(before) + part_pieces(*part));
}

/// What can be included in some parts.
pub fn pieces_of(parts: &Vec<Part>) -> (found: Vec<Piece>)
    ensures
        piece_views(found@) == pieces(parts@),
{
    let mut found: Vec<Piece> = Vec::new();
    collect_pieces(parts, &mut found);
    assert(piece_views(found@) =~= pieces(parts@));
    found
}

/// Whether a tag can include what goes by something.
fn can_reach(tag: &Option<String>, source: &Source) -> (can: bool)
    ensures
        can == reaches(name_text(*tag), source@),
{
    match tag {
        None => true,
        Some(name) => match source {
            Source::Named(own) => {
                let same = *name == *own;
                same
            },
            Source::Computed => true,
            Source::Handed => {
                let block = "@partial-block".to_string();
                let same = *name == block;
                same
            },
        },
    }
}

/// Whether one of some tags can include one of some marked pieces.
fn can_reach_marked(tags: &Vec<Option<String>>, pieces: &Vec<Piece>, marks: &Vec<bool>) -> (can:
    bool)
    requires
        marks@.len() == pieces@.len(),
    ensures
        can == reaches_marked(tag_texts(tags@), piece_views(pieces@), marks@),
{
    let ghost names = tag_texts(tags@);
    let ghost views = piece_views(pieces@);
    let mut t: usize = 0;
    while t < tags.len()
        invariant
            t <= tags.len(),
            marks@.len() == pieces@.len(),
            names == tag_texts(tags@),
            views == piece_views(pieces@),
            forall|s: int, i: int|
                0 <= s < t && 0 <= i < views.len() && marks@[i] ==> !reaches(
                    #[trigger] names[s],
                    (#[trigger] views[i]).source,
                ),
        decreases tags.len() - t,
    {
        let mut i: usize = 0;
        while i < pieces.len()
            invariant
                t < tags.len(),
                i <= pieces.len(),
                marks@.len() == pieces@.len(),
                names == tag_texts(tags@),
                views == piece_views(pieces@),
                forall|j: int|
                    0 <= j < i && marks@[j] ==> !reaches(
                        names[t as int],
                        (#[trigger] views[j]).source,
                    ),
            decreases pieces.len() - i,
        {
            assert(names[t as int] == name_text(tags@[t as int]));
            assert(views[i as int] == pieces@[i as int]@);
            if marks[i] && can_reach(&tags[t], &pieces[i].source) {
                return true;
            }
            i += 1;
        }
        t += 1;
    }
    false
}

/// Fewer marks reach no more.
proof fn fewer_marks_reach_less(
    tags: Seq<Option<Seq<char>>>,
    pieces: Seq<PieceView>,
    fewer: Seq<bool>,
    more: Seq<bool>,
)
    requires
        fewer.len() == pieces.len(),
        more.len() == pieces.len(),
        forall|i: int| 0 <= i < pieces.len() && fewer[i] ==> #[trigger] more[i],
        reaches_marked(tags, pieces, fewer),
    ensures
        reaches_marked(tags, pieces, more),
{
    let (t, i) = choose|t: int, i: int|
        0 <= t < tags.len() && 0 <= i < pieces.len() && fewer[i] && reaches(
            #[trigger] tags[t],
            (#[trigger] pieces[i]).source,
        );
    assert(more[i]);
}

/// How many marks there are.
spec fn marked(marks: Seq<bool>) -> nat
    decreases marks.len(),
{
    if marks.len() == 0 {
        0
    } else {
        marked(marks.drop_last()) + if marks.last() {
            1nat
        } else {
            0nat
        }
    }
}

/// To take a mark away makes one less.
proof fn unmarking_counts(marks: Seq<bool>, at: int)
    requires
        0 <= at < marks.len(),
        marks[at],
    ensures
        marked(marks.update(at, false)) + 1 == marked(marks),
    decreases marks.len(),
{
    let less = marks.update(at, false);
    if at == marks.len() - 1 {
        assert(less.drop_last() =~= marks.drop_last());
    } else {
        unmarking_counts(marks.drop_last(), at);
        assert(less.drop_last() =~= marks.drop_last().update(at, false));
    }
}

/// Marks the pieces that go on including without end: what includes no marked
/// piece loses its mark, until nothing changes.
fn endless(pieces: &Vec<Piece>) -> (marks: Vec<bool>)
    ensures
        keep_including(piece_views(pieces@), marks@),
        forall|others: Seq<bool>, i: int| #[trigger]
            keep_including(piece_views(pieces@), others) && 0 <= i < pieces@.len()
                && #[trigger] others[i] ==> marks@[i],
{
    let ghost views = piece_views(pieces@);
    let mut marks: Vec<bool> = Vec::new();
    while marks.len() < pieces.len()
        invariant
            marks@.len() <= pieces@.len(),
            forall|i: int| 0 <= i < marks@.len() ==> #[trigger] marks@[i],
        decreases pieces.len() - marks.len(),
    {
        marks.push(true);
    }
    let mut settled = false;
    while !settled
        invariant
            views == piece_views(pieces@),
            marks@.len() == pieces@.len(),
            forall|others: Seq<bool>, i: int| #[trigger]
                keep_including(views, others) && 0 <= i < views.len() && #[trigger] others[i]
                    ==> marks@[i],
            settled ==> keep_including(views, marks@),
        decreases
                marked(marks@),
                if settled {
                    0int
                } else {
                    1int
                },
    {
        settled = true;
        let ghost start = marks@;
        let mut i: usize = 0;
        while i < pieces.len()
            invariant
                i <= pieces.len(),
                views == piece_views(pieces@),
                marks@.len() == pieces@.len(),
                start.len() == pieces@.len(),
                forall|others: Seq<bool>, j: int| #[trigger]
                    keep_including(views, others) && 0 <= j < views.len() && #[trigger] others[j]
                        ==> marks@[j],
                settled ==> marks@ == start,
                !settled ==> marked(marks@) < marked(start),
                settled ==> forall|j: int|
                    0 <= j < i && start[j] ==> reaches_marked(
                        (#[trigger] views[j]).tags,
                        views,
                        start,
                    ),
            decreases pieces.len() - i,
        {
            assert(views[i as int] == pieces@[i as int]@);
            if marks[i] && !can_reach_marked(&pieces[i].tags, pieces, &marks) {
                let ghost before = marks@;
                proof {
                    unmarking_counts(before, i as int);
                    assert forall|others: Seq<bool>| #[trigger]
                        keep_including(views, others) implies !others[i as int] by {
                        if others[i as int] {
                            fewer_marks_reach_less(
                                views[i as int].tags,
                                views,
                                others,
                                before,
                            );
                        }
                    }
                }
                marks.set(i, false);
                settled = false;
            }
            i += 1;
        }
    }
    marks
}

/// Whether some tags can include a piece that goes on including without end.
pub fn has_circle(tags: &Vec<Option<String>>, pieces: &Vec<Piece>) -> (found: bool)
    ensures
        found == lead_on(tag_texts(tags@), piece_views(pieces@)),
{
    let marks = endless(pieces);
    let found = can_reach_marked(tags, pieces, &marks);
    proof {
        let names = tag_texts(tags@);
        let views = piece_views(pieces@);
        if lead_on(names, views) {
            let others = choose|others: Seq<bool>| #[trigger]
                keep_including(views, others) && reaches_marked(names, views, others);
            assert forall|i: int| 0 <= i < views.len() && others[i] implies #[trigger] marks@[i] by {
                assert(others[i]);
            }
            fewer_marks_reach_less(names, views, others, marks@);
        }
    }
    found
}

/// Parts that hold no tag include nothing, and nothing in them does.
proof fn without_tags(parts: Seq<Part>)
    requires
        !includes(parts),
    ensures
        tags(parts).len() == 0,
        forall|i: int| 0 <= i < pieces(parts).len() ==> (#[trigger] pieces(parts)[i]).tags.len() == 0,
    decreases parts,
{
    if parts.len() > 0 {
        let last = parts.last();
        assert(!part_includes(parts[parts.len() - 1]));
        assert(!includes(parts.drop_last())) by {
            if includes(parts.drop_last()) {
                let i = choose|i: int|
                    0 <= i < parts.drop_last().len() && part_includes(
                        #[trigger] parts.drop_last()[i],
                    );
                assert(part_includes(parts[i]));
            }
        }
        without_tags(parts.drop_last());
        match last {
            Part::Block(body, otherwise) => {
                without_tags(body@);
                without_tags(otherwise@);
            },
            Part::Definition(_, body) => {
                without_tags(body@);
            },
            _ => {},
        }
        assert(part_tags(last).len() == 0);
        assert forall|i: int| 0 <= i < part_pieces(last).len() implies (#[trigger] part_pieces(
            last,
        )[i]).tags.len() == 0 by {
            match last {
                Part::Block(body, otherwise) => {
                    if i < pieces(body@).len() {
                        assert(part_pieces(last)[i] == pieces(body@)[i]);
                    } else {
                        assert(part_pieces(last)[i] == pieces(otherwise@)[i - pieces(body@).len()]);
                    }
                },
                Part::Definition(_, body) => {
                    if i > 0 {
                        assert(part_pieces(last)[i] == pieces(body@)[i - 1]);
                    }
                },
                _ => {},
            }
        }
        assert forall|i: int| 0 <= i < pieces(parts).len() implies (#[trigger] pieces(
            parts,
        )[i]).tags.len() == 0 by {
            let before = pieces(parts.drop_last());
            if i < before.len() {
                assert(pieces(parts)[i] == before[i]);
            } else {
                assert(pieces(parts)[i] == part_pieces(last)[i - before.len()]);
            }
        }
    }
}

/// Whether a template includes partials that include one another without end. That
/// takes a tag that includes a partial.
pub fn has_circular_partials(template: &str) -> (found: bool)
    requires
        !names_local_this(template@),
    ensures
        found == is_circular(template@),
        found ==> mentions_partial(template@),
{
    match compile(template) {
        Some(compiled) => {
            let parts = parts(&compiled);
            let tags = tags_of(&parts);
            let pieces = pieces_of(&parts);
            proof {
                if !includes(parts@) {
                    without_tags(parts@);
                }
            }
            has_circle(&tags, &pieces)
        },
        None => false,
    }
}

/// The characters of a text.
fn characters(text: &str) -> (characters: Vec<char>)
    ensures
        characters@ == text@,
{
    let length: usize = text.unicode_len();
    let mut characters: Vec<char> = Vec::new();
    let mut at: usize = 0;
    while at < length
        invariant
            length == text@.len(),
            at <= length,
            characters@ == text@.take(at as int),
        decreases length - at,
    {
        characters.push(text.get_char(at));
        at += 1;
    }
    assert(characters@ =~= text@);
    characters
}

/// Whether a character can be one of a name.
fn can_name(character: char) -> (can: bool)
    ensures
        can == is_name_char(character),
{
    'a' <= character && character <= 'z' || 'A' <= character && character <= 'Z' || '0'
        <= character && character <= '9' || character == '-' || character == '_' || character == '$'
        || character >= '\u{80}'
}

/// Whether the letters of `this` stand at a position of a text.
fn is_this(text: &Vec<char>, at: usize) -> (found: bool)
    requires
        at <= text@.len(),
    ensures
        found == spells_this(text@, at as int),
{
    text.len() - at >= 4 && text[at] == 't' && text[at + 1] == 'h' && text[at + 2] == 'i'
        && text[at + 3] == 's'
}

/// Where the name `this` ends that stands at a position of a text.
fn end_of_this(text: &Vec<char>, at: usize) -> (end: Option<usize>)
    requires
        at <= text@.len(),
    ensures
        match end {
            Some(end) => after_this(text@, at as int) == Some(end as int) && at < end
                <= text@.len(),
            None => after_this(text@, at as int) is None,
        },
{
    if at < text.len() && text[at] == '[' {
        if is_this(text, at + 1) && text.len() - at > 5 && text[at + 5] == ']' {
            Some(at + 6)
        } else {
            None
        }
    } else if is_this(text, at) && (text.len() - at == 4 || !can_name(text[at + 4])) {
        Some(at + 4)
    } else {
        None
    }
}

/// Whether the names of a path, from a position of a text on, are all `this`.
fn is_only_this(text: &Vec<char>, at: usize) -> (only: bool)
    requires
        at <= text@.len(),
    ensures
        only == only_this(text@, at as int),
{
    let mut from: usize = at;
    loop
        invariant
            from <= text@.len(),
            only_this(text@, from as int) == only_this(text@, at as int),
        decreases text.len() - from,
    {
        match end_of_this(text, from) {
            Some(end) => {
                let more = text.len() - end > 1 && (text[end] == '.' || text[end] == '/') && (
                text[end + 1] == '[' || can_name(text[end + 1]));
                if !more {
                    return true;
                }
                from = end + 1;
            },
            None => {
                return false;
            },
        }
    }
}

/// Whether what a tag holds can begin at a position of a text.
fn can_begin(text: &Vec<char>, at: usize) -> (can: bool)
    ensures
        can == begins(text@, at as int),
{
    at >= 2 && at < text.len() && text[at - 1] == '{' && text[at - 2] == '{' && text[at] != '{'
        && text[at] != '!' && !(at >= 3 && text[at - 3] == '\\' && (at == 3 || text[at - 4]
        != '\\'))
}

/// Whether a tag that begins at one position of a text can go on to another.
fn can_go_on_to(text: &Vec<char>, from: usize, at: usize) -> (can: bool)
    requires
        from <= at <= text@.len(),
    ensures
        can == may_reach(text@, from as int, at as int),
{
    let mut tame = true;
    let mut quoting = false;
    let mut k: usize = from;
    while k < at
        invariant
            from <= k <= at <= text@.len(),
            tame == is_tame(text@, from as int, k as int),
            quoting == is_quoting(text@, from as int, k as int),
            forall|e: int|
                from <= e < k && e + 2 <= at ==> !#[trigger] ends(text@, from as int, e),
        decreases at - k,
    {
        let character = text[k];
        if tame && !quoting && at - k >= 2 && character == '}' && text[k + 1] == '}' {
            assert(ends(text@, from as int, k as int));
            return false;
        }
        tame = tame && character != '[' && character != '\'' && character != '{' && character
            != '\\';
        quoting = quoting != (character == '"');
        k += 1;
    }
    !(tame && quoting)
}

/// Whether a position of a text can be inside a tag.
fn can_be_code(text: &Vec<char>, at: usize) -> (can: bool)
    requires
        at <= text@.len(),
    ensures
        can == may_be_code(text@, at as int),
{
    let mut from: usize = 0;
    while from < at
        invariant
            from <= at <= text@.len(),
            forall|f: int|
                f < from && #[trigger] begins(text@, f) ==> !may_reach(text@, f, at as int),
        decreases at - from,
    {
        if can_begin(text, from) && can_go_on_to(text, from, at) {
            return true;
        }
        from += 1;
    }
    let can = can_begin(text, at) && can_go_on_to(text, at, at);
    can
}

/// Whether a text can hold a tag with the path of a local variable that names
/// nothing but `this`.
pub fn has_local_this(template: &str) -> (found: bool)
    ensures
        found == names_local_this(template@),
{
    let text = characters(template);
    let mut from: usize = 0;
    while from < text.len()
        invariant
            text@ == template@,
            from <= text@.len(),
            forall|f: int, to: int|
                f < from && #[trigger] steps(text@, f, to) && only_this(text@, to) ==> !may_be_code(
                    text@,
                    f,
                ),
        decreases text.len() - from,
    {
        if text[from] == '@' && leads_to_this(&text, from) && can_be_code(&text, from) {
            return true;
        }
        from += 1;
    }
    false
}

/// Whether the path of a local variable, from a position of a text on, names
/// nothing but `this`.
fn leads_to_this(text: &Vec<char>, from: usize) -> (leads: bool)
    requires
        from < text@.len(),
        text@[from as int] == '@',
    ensures
        leads == exists|to: int| #[trigger]
            steps(text@, from as int, to) && only_this(text@, to),
{
    assert(from < text.len());
    let mut to: usize = from + 1;
    loop
        invariant
            from < to <= text@.len(),
            steps(text@, from as int, to as int),
            forall|t: int|
                t < to && #[trigger] steps(text@, from as int, t) ==> !only_this(text@, t),
        decreases text.len() - to,
    {
        if is_only_this(text, to) {
            return true;
        }
        if to >= text.len() || text[to] != '.' && text[to] != '/' {
            return false;
        }
        to += 1;
    }
}

} // verus!
