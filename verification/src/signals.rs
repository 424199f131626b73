//! The notifications that the handle declares, and the drag phases that raise them.
//!
//! The toolkit keeps a table of the notifications of each widget type. A name
//! enters the table only if it is canonical, and a notification can be
//! emitted only under a name that is in the table, with values of the kinds
//! that were declared for it. This module states the handle's table and
//! proves that the toolkit accepts it, and every emission that a phase of a
//! drag calls for.

use vstd::prelude::*;

verus! {

/// A phase of a drag, as the toolkit's gesture recogniser reports it.
#[derive(Clone, Copy, Debug, PartialEq, Eq, Structural)]
pub enum DragPhase {
    /// The pointer went down on the handle.
    Begin,
    /// The pointer moved while it was held down.
    Update,
    /// The pointer was released.
    End,
}

/// What the coordinates of a notification are measured from.
#[derive(Clone, Copy, Debug, PartialEq, Eq, Structural)]
pub enum CoordinateFrame {
    /// Measured in the handle's own coordinate space.
    Absolute,
    /// Measured from the point at which the drag began.
    RelativeToStart,
}

/// The kind of a value that a notification sends, or that its listeners return.
#[derive(Clone, Copy, Debug, PartialEq, Eq, Structural)]
pub enum ValueKind {
    /// No value.
    Unit,
    /// A pair of coordinates.
    Position,
}

/// The declaration of one notification: its name, the kinds of the values it
/// sends, in order, and the kind of the value its listeners return.
#[derive(Debug)]
pub struct Declaration {
    pub name: &'static str,
    pub params: Vec<ValueKind>,
    pub returns: ValueKind,
}

/// The mathematical content of a [`Declaration`].
pub ghost struct DeclarationView {
    pub name: Seq<char>,
    pub params: Seq<ValueKind>,
    pub returns: ValueKind,
}

impl View for Declaration {
    type V = DeclarationView;

    open spec fn view(&self) -> DeclarationView {
        DeclarationView { name: self.name@, params: self.params@, returns: self.returns }
    }
}

/// The name of the notification that answers `phase`.
pub open spec fn signal_name(phase: DragPhase) -> Seq<char> {
    match phase {
        DragPhase::Begin => "offset-begin"@,
        DragPhase::Update => "offset-update"@,
        DragPhase::End => "offset-end"@,
    }
}

/// The declaration of the notification that answers `phase`: it sends one
/// position and its listeners return nothing.
pub open spec fn declaration(phase: DragPhase) -> DeclarationView {
    DeclarationView {
        name: signal_name(phase),
        params: seq![ValueKind::Position],
        returns: ValueKind::Unit,
    }
}

/// The handle's table of notifications, in the order of declaration.
pub open spec fn declarations() -> Seq<DeclarationView> {
    seq![
        declaration(DragPhase::Begin),
        declaration(DragPhase::Update),
        declaration(DragPhase::End),
    ]
}

/// Whether `c` may stand in a canonical name: a letter of the basic Latin
/// alphabet anywhere, a decimal digit or a hyphen anywhere but in front.
pub open spec fn canonical_char(c: char, first: bool) -> bool {
    ||| 'a' <= c <= 'z'
    ||| 'A' <= c <= 'Z'
    ||| !first && ('0' <= c <= '9' || c == '-')
}

/// Whether `name` is canonical, which the toolkit demands of the name of
/// every notification that is declared to it.
pub open spec fn canonical_name(name: Seq<char>) -> bool {
    forall|i: int| 0 <= i < name.len() ==> canonical_char(#[trigger] name[i], i == 0)
}

/// The contents of a table of declarations.
pub open spec fn table_view(table: Seq<Declaration>) -> Seq<DeclarationView> {
    table.map_values(|declared: Declaration| declared@)
}

/// Whether the toolkit can take `table` as the notifications of one widget
/// type: every name is canonical, and no name occurs twice.
pub open spec fn well_formed(table: Seq<DeclarationView>) -> bool {
    &&& forall|i: int| 0 <= i < table.len() ==> canonical_name((#[trigger] table[i]).name)
    &&& forall|i: int, j: int|
        #![trigger table[i], table[j]]
        0 <= i < j < table.len() ==> table[i].name != table[j].name
}

/// Whether a widget type with the notifications of `table` lets a
/// notification called `name` be emitted with values of the given kinds: the
/// name must be in the table, declared with as many values, of the same kinds.
pub open spec fn accepts(table: Seq<DeclarationView>, name: Seq<char>, kinds: Seq<ValueKind>) -> bool {
    exists|i: int|
        0 <= i < table.len() && (#[trigger] table[i]).name == name && table[i].params == kinds
}

impl DragPhase {
    /// The name of the notification that answers this phase.
    pub fn signal_name(self) -> (name: &'static str)
        ensures
            name@ == signal_name(self),
    {
        match self {
            DragPhase::Begin => "offset-begin",
            DragPhase::Update => "offset-update",
            DragPhase::End => "offset-end",
        }
    }

    /// Whether the handle claims the pointer's event sequence in this phase.
    ///
    /// It does so once, when the drag begins: from then on no other widget
    /// sees the events of this drag.
    pub fn claims_sequence(self) -> (claims: bool)
        ensures
            claims == (self == DragPhase::Begin),
    {
        match self {
            DragPhase::Begin => true,
            DragPhase::Update => false,
            DragPhase::End => false,
        }
    }

    /// What the coordinates sent in this phase are measured from.
    ///
    /// The beginning of a drag is reported where it happened; every later
    /// report is the distance covered since.
    pub fn coordinate_frame(self) -> (frame: CoordinateFrame)
        ensures
            frame == (if self == DragPhase::Begin {
                CoordinateFrame::Absolute
            } else {
                CoordinateFrame::RelativeToStart
            }),
    {
        match self {
            DragPhase::Begin => CoordinateFrame::Absolute,
            DragPhase::Update => CoordinateFrame::RelativeToStart,
            DragPhase::End => CoordinateFrame::RelativeToStart,
        }
    }

    /// The declaration of the notification that answers this phase.
    pub fn declaration(self) -> (declared: Declaration)
        ensures
            declared@ == declaration(self),
            canonical_name(declared@.name),
    {
        proof {
            lemma_signal_names_canonical(self);
        }
        let mut params: Vec<ValueKind> = Vec::new();
        params.push(ValueKind::Position);
        Declaration { name: self.signal_name(), params, returns: ValueKind::Unit }
    }
}

/// Every notification of the handle has a canonical name, so the toolkit
/// accepts its declaration.
pub proof fn lemma_signal_names_canonical(phase: DragPhase)
    ensures
        canonical_name(signal_name(phase)),
{
    reveal_strlit("offset-begin");
    reveal_strlit("offset-update");
    reveal_strlit("offset-end");
}

/// No two phases share a notification: a listener of one name hears one
/// phase only.
pub proof fn lemma_signal_names_distinct(a: DragPhase, b: DragPhase)
    ensures
        signal_name(a) == signal_name(b) <==> a == b,
{
    reveal_strlit("offset-begin");
    reveal_strlit("offset-update");
    reveal_strlit("offset-end");
    assert(signal_name(DragPhase::Begin).len() == 12);
    assert(signal_name(DragPhase::Update).len() == 13);
    assert(signal_name(DragPhase::End).len() == 10);
}

/// The toolkit can take the handle's table as it stands.
pub proof fn lemma_declarations_well_formed()
    ensures
        well_formed(declarations()),
{
    lemma_signal_names_canonical(DragPhase::Begin);
    lemma_signal_names_canonical(DragPhase::Update);
    lemma_signal_names_canonical(DragPhase::End);
    lemma_signal_names_distinct(DragPhase::Begin, DragPhase::Update);
    lemma_signal_names_distinct(DragPhase::Begin, DragPhase::End);
    lemma_signal_names_distinct(DragPhase::Update, DragPhase::End);
}

/// Whatever the phase, the handle's table holds the notification that answers
/// it, declared with a position as its only value: no emission of the handle
/// is refused.
pub proof fn lemma_declared_emission(phase: DragPhase)
    ensures
        accepts(declarations(), signal_name(phase), seq![ValueKind::Position]),
{
    let i: int = match phase {
        DragPhase::Begin => 0,
        DragPhase::Update => 1,
        DragPhase::End => 2,
    };
    assert(declarations()[i] == declaration(phase));
}

} // verus!
