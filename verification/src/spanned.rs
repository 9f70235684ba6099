//! The spanned form of the tree: every construct keeps the tokens it was
//! parsed from and can report, through [`Node`], the exact source extent it
//! covers.

use vstd::prelude::*;

pub mod dci;
pub mod stmt;

verus! {

/// A half-open `[start, end)` pair of byte offsets into the original source
/// text, describing the extent of a construct.
#[derive(Debug, Clone, Copy, PartialEq, Eq, Structural)]
pub struct SourceLocation {
    pub start: usize,
    pub end: usize,
}

impl SourceLocation {
    /// A location is ordered when its start does not lie past its end.
    pub open spec fn is_ordered(self) -> bool {
        self.start <= self.end
    }
}

/// The capability every element of a spanned tree exposes: reporting the
/// source extent it covers. For leaves the extent is intrinsic; for
/// composites it is computed from the designated first and last parts of the
/// construct, never stored redundantly.
pub trait Node {
    /// Whether the element is shaped as the parser produces it: every token
    /// span is ordered, and sibling parts follow one another in source order.
    spec fn wf(&self) -> bool;

    /// The source extent the element covers, per the location rule of its
    /// kind.
    spec fn loc_spec(&self) -> SourceLocation;

    /// Report the source extent of this element.
    fn loc(&self) -> (loc: SourceLocation)
        requires
            self.wf(),
        ensures
            loc == self.loc_spec(),
    ;

    /// The standing invariant of the capability: a well-formed element never
    /// reports an inverted extent.
    proof fn lemma_loc_ordered(&self)
        requires
            self.wf(),
        ensures
            self.loc_spec().is_ordered(),
    ;
}

/// A leaf token: a run of raw source text together with its intrinsic
/// location, supplied by the upstream tokenizer.
#[derive(Debug, Clone, PartialEq)]
pub struct Slice {
    pub source: String,
    pub loc: SourceLocation,
}

impl Node for Slice {
    open spec fn wf(&self) -> bool {
        self.loc.is_ordered()
    }

    open spec fn loc_spec(&self) -> SourceLocation {
        self.loc
    }

    fn loc(&self) -> (loc: SourceLocation) {
        self.loc
    }

    proof fn lemma_loc_ordered(&self) {
    }
}

/// An identifier token.
#[derive(Debug, Clone, PartialEq)]
pub struct Ident {
    pub slice: Slice,
}

impl Node for Ident {
    open spec fn wf(&self) -> bool {
        self.slice.wf()
    }

    open spec fn loc_spec(&self) -> SourceLocation {
        self.slice.loc
    }

    fn loc(&self) -> (loc: SourceLocation) {
        self.slice.loc
    }

    proof fn lemma_loc_ordered(&self) {
    }
}

impl Ident {
    /// The allocated counterpart: the identifier's text alone.
    pub open spec fn into_allocated_spec(self) -> Seq<char> {
        self.slice.source@
    }

    /// Convert into the allocated form, dropping the location.
    pub fn into_allocated(self) -> (r: crate::Ident)
        ensures
            r@ == self.into_allocated_spec(),
    {
        crate::Ident { name: self.slice.source }
    }
}

/// An expression of the neighbouring expression grammar, carried as a single
/// token covering its whole extent.
#[derive(Debug, Clone, PartialEq)]
pub struct Expr {
    pub slice: Slice,
}

impl Node for Expr {
    open spec fn wf(&self) -> bool {
        self.slice.wf()
    }

    open spec fn loc_spec(&self) -> SourceLocation {
        self.slice.loc
    }

    fn loc(&self) -> (loc: SourceLocation) {
        self.slice.loc
    }

    proof fn lemma_loc_ordered(&self) {
    }
}

impl Expr {
    /// The allocated counterpart: the expression's text alone.
    pub open spec fn into_allocated_spec(self) -> Seq<char> {
        self.slice.source@
    }

    /// Convert into the allocated form, dropping the location.
    pub fn into_allocated(self) -> (r: crate::Expr)
        ensures
            r@ == self.into_allocated_spec(),
    {
        crate::Expr { text: self.slice.source }
    }
}

/// A binding pattern of the neighbouring pattern grammar, carried as a single
/// token covering its whole extent.
#[derive(Debug, Clone, PartialEq)]
pub struct Pat {
    pub slice: Slice,
}

impl Node for Pat {
    open spec fn wf(&self) -> bool {
        self.slice.wf()
    }

    open spec fn loc_spec(&self) -> SourceLocation {
        self.slice.loc
    }

    fn loc(&self) -> (loc: SourceLocation) {
        self.slice.loc
    }

    proof fn lemma_loc_ordered(&self) {
    }
}

impl Pat {
    /// The allocated counterpart: the pattern's text alone.
    pub open spec fn into_allocated_spec(self) -> Seq<char> {
        self.slice.source@
    }

    /// Convert into the allocated form, dropping the location.
    pub fn into_allocated(self) -> (r: crate::Pat)
        ensures
            r@ == self.into_allocated_spec(),
    {
        crate::Pat { text: self.slice.source }
    }
}

/// The declaration-kind keyword of a variable declaration.
#[derive(Debug, Clone, PartialEq)]
pub struct VarKind {
    pub slice: Slice,
}

impl Node for VarKind {
    open spec fn wf(&self) -> bool {
        self.slice.wf()
    }

    open spec fn loc_spec(&self) -> SourceLocation {
        self.slice.loc
    }

    fn loc(&self) -> (loc: SourceLocation) {
        self.slice.loc
    }

    proof fn lemma_loc_ordered(&self) {
    }
}

impl VarKind {
    /// The allocated counterpart: the keyword's text alone.
    pub open spec fn into_allocated_spec(self) -> Seq<char> {
        self.slice.source@
    }

    /// Convert into the allocated form, dropping the location.
    pub fn into_allocated(self) -> (r: crate::VarKind)
        ensures
            r@ == self.into_allocated_spec(),
    {
        crate::VarKind { text: self.slice.source }
    }
}

/// A single variable declarator, carried as a single token covering its
/// whole extent.
#[derive(Debug, Clone, PartialEq)]
pub struct VarDecl {
    pub slice: Slice,
}

impl Node for VarDecl {
    open spec fn wf(&self) -> bool {
        self.slice.wf()
    }

    open spec fn loc_spec(&self) -> SourceLocation {
        self.slice.loc
    }

    fn loc(&self) -> (loc: SourceLocation) {
        self.slice.loc
    }

    proof fn lemma_loc_ordered(&self) {
    }
}

impl VarDecl {
    /// The allocated counterpart: the declarator's text alone.
    pub open spec fn into_allocated_spec(self) -> Seq<char> {
        self.slice.source@
    }

    /// Convert into the allocated form, dropping the location.
    pub fn into_allocated(self) -> (r: crate::VarDecl)
        ensures
            r@ == self.into_allocated_spec(),
    {
        crate::VarDecl { text: self.slice.source }
    }
}

/// A declaration of the neighbouring declaration grammar, carried as a
/// single token covering its whole extent.
#[derive(Debug, Clone, PartialEq)]
pub struct Decl {
    pub slice: Slice,
}

impl Node for Decl {
    open spec fn wf(&self) -> bool {
        self.slice.wf()
    }

    open spec fn loc_spec(&self) -> SourceLocation {
        self.slice.loc
    }

    fn loc(&self) -> (loc: SourceLocation) {
        self.slice.loc
    }

    proof fn lemma_loc_ordered(&self) {
    }
}

impl Decl {
    /// The allocated counterpart: the declaration's text alone.
    pub open spec fn into_allocated_spec(self) -> Seq<char> {
        self.slice.source@
    }

    /// Convert into the allocated form, dropping the location.
    pub fn into_allocated(self) -> (r: crate::Decl)
        ensures
            r@ == self.into_allocated_spec(),
    {
        crate::Decl { text: self.slice.source }
    }
}

/// A key/value entry of a role body: a key token, the colon between, and a
/// value token.
#[derive(Debug, Clone, PartialEq)]
pub struct Prop {
    pub key: Slice,
    pub colon: Slice,
    pub value: Slice,
}

impl Node for Prop {
    open spec fn wf(&self) -> bool {
        &&& self.key.wf()
        &&& self.colon.wf()
        &&& self.value.wf()
        &&& self.key.loc.end <= self.colon.loc.start
        &&& self.colon.loc.end <= self.value.loc.start
    }

    open spec fn loc_spec(&self) -> SourceLocation {
        SourceLocation { start: self.key.loc.start, end: self.value.loc.end }
    }

    fn loc(&self) -> (loc: SourceLocation) {
        SourceLocation { start: self.key.loc.start, end: self.value.loc.end }
    }

    proof fn lemma_loc_ordered(&self) {
    }
}

impl Prop {
    /// The allocated counterpart: the key and value texts as a pair.
    pub open spec fn into_allocated_spec(self) -> (Seq<char>, Seq<char>) {
        (self.key.source@, self.value.source@)
    }

    /// Convert into the allocated form, dropping the colon and the locations.
    pub fn into_allocated(self) -> (r: crate::Prop)
        ensures
            r@ == self.into_allocated_spec(),
    {
        crate::Prop { key: self.key.source, value: self.value.source }
    }
}

/// One declarator of a declaration list, paired with the separator token
/// that follows it, when one does.
#[derive(Debug, Clone, PartialEq)]
pub struct ListEntry {
    pub item: VarDecl,
    pub comma: Option<Slice>,
}

impl Node for ListEntry {
    open spec fn wf(&self) -> bool {
        &&& self.item.wf()
        &&& match self.comma {
            Some(comma) => comma.wf() && self.item.loc_spec().end <= comma.loc.start,
            None => true,
        }
    }

    open spec fn loc_spec(&self) -> SourceLocation {
        match self.comma {
            Some(comma) => SourceLocation { start: self.item.loc_spec().start, end: comma.loc.end },
            None => self.item.loc_spec(),
        }
    }

    fn loc(&self) -> (loc: SourceLocation) {
        match &self.comma {
            Some(comma) => SourceLocation { start: self.item.slice.loc.start, end: comma.loc.end },
            None => self.item.loc(),
        }
    }

    proof fn lemma_loc_ordered(&self) {
    }
}

impl ListEntry {
    /// The allocated counterpart: the declarator alone, its separator
    /// dropped.
    pub open spec fn into_allocated_spec(self) -> Seq<char> {
        self.item.into_allocated_spec()
    }

    /// Convert into the allocated form, unwrapping to the plain declarator.
    pub fn into_allocated(self) -> (r: crate::VarDecl)
        ensures
            r@ == self.into_allocated_spec(),
    {
        self.item.into_allocated()
    }
}

/// Whether the elements of `entries` are well formed and follow one another
/// in source order, the first of them no earlier than the offset `prev_end`.
pub open spec fn entries_ordered_from(prev_end: int, entries: Seq<ListEntry>) -> bool
    decreases entries,
{
    if entries.len() == 0 {
        true
    } else {
        &&& entries.first().wf()
        &&& prev_end <= entries.first().loc_spec().start
        &&& entries_ordered_from(entries.first().loc_spec().end as int, entries.drop_first())
    }
}

/// The end offset of the last element of `entries`, or `default` when
/// `entries` is empty.
pub open spec fn entries_last_end(entries: Seq<ListEntry>, default: usize) -> usize {
    if entries.len() == 0 {
        default
    } else {
        entries.last().loc_spec().end
    }
}

/// Entries laid out in source order only ever extend an extent to the
/// right: the end of the last entry lies no earlier than where the layout
/// began. Every entry of such a layout is well formed.
pub proof fn lemma_entries_ordered(prev_end: int, entries: Seq<ListEntry>, default: usize)
    requires
        entries_ordered_from(prev_end, entries),
        prev_end <= default,
    ensures
        prev_end <= entries_last_end(entries, default),
        forall|i: int| 0 <= i < entries.len() ==> (#[trigger] entries[i]).wf(),
    decreases entries,
{
    if entries.len() > 0 {
        entries.first().lemma_loc_ordered();
        lemma_entries_ordered(
            entries.first().loc_spec().end as int,
            entries.drop_first(),
            entries.first().loc_spec().end,
        );
        if entries.len() > 1 {
            assert(entries.drop_first().last() == entries.last());
        }
        assert forall|i: int| 0 <= i < entries.len() implies (#[trigger] entries[i]).wf() by {
            if i > 0 {
                assert(entries[i] == entries.drop_first()[i - 1]);
            }
        }
    }
}

/// The whole declaration list of a variable statement.
#[derive(Debug, Clone, PartialEq)]
pub struct VarDecls {
    pub decls: Vec<ListEntry>,
}

impl Node for VarDecls {
    open spec fn wf(&self) -> bool {
        &&& self.decls@.len() > 0
        &&& entries_ordered_from(self.decls@.first().loc_spec().start as int, self.decls@)
    }

    open spec fn loc_spec(&self) -> SourceLocation {
        SourceLocation {
            start: self.decls@.first().loc_spec().start,
            end: self.decls@.last().loc_spec().end,
        }
    }

    fn loc(&self) -> (loc: SourceLocation) {
        proof {
            lemma_entries_ordered(
                self.decls@.first().loc_spec().start as int,
                self.decls@,
                self.decls@.first().loc_spec().start,
            );
            assert(self.decls@[0] == self.decls@.first());
            assert(self.decls@[self.decls@.len() - 1] == self.decls@.last());
        }
        let first = self.decls[0].loc();
        let last = self.decls[self.decls.len() - 1].loc();
        SourceLocation { start: first.start, end: last.end }
    }

    proof fn lemma_loc_ordered(&self) {
        lemma_entries_ordered(
            self.decls@.first().loc_spec().start as int,
            self.decls@,
            self.decls@.first().loc_spec().start,
        );
    }
}

/// The elementwise conversion of a declaration list: each entry unwrapped to
/// its plain declarator, in order.
pub open spec fn entries_into_allocated_spec(entries: Seq<ListEntry>) -> Seq<Seq<char>>
    decreases entries,
{
    if entries.len() == 0 {
        Seq::empty()
    } else {
        entries_into_allocated_spec(entries.drop_last()).push(entries.last().into_allocated_spec())
    }
}

/// Converting a declaration list keeps its length and converts each entry in
/// place.
pub proof fn lemma_entries_into_allocated_elementwise(entries: Seq<ListEntry>)
    ensures
        entries_into_allocated_spec(entries).len() == entries.len(),
        forall|i: int|
            0 <= i < entries.len() ==> entries_into_allocated_spec(entries)[i]
                == (#[trigger] entries[i]).into_allocated_spec(),
    decreases entries,
{
    if entries.len() > 0 {
        lemma_entries_into_allocated_elementwise(entries.drop_last());
        assert forall|i: int|
            0 <= i < entries.len() implies entries_into_allocated_spec(entries)[i] == (
        #[trigger] entries[i]).into_allocated_spec() by {
            if i < entries.len() - 1 {
                assert(entries[i] == entries.drop_last()[i]);
            } else {
                assert(entries[i] == entries.last());
            }
        }
    }
}

/// Convert every entry of a declaration list, keeping their order.
pub fn entries_into_allocated(mut entries: Vec<ListEntry>) -> (r: Vec<crate::VarDecl>)
    ensures
        crate::var_decls_view(r@) == entries_into_allocated_spec(entries@),
    decreases entries@,
{
    let ghost orig = entries@;
    match entries.pop() {
        None => {
            let r = Vec::new();
            proof {
                assert(crate::var_decls_view(r@) =~= entries_into_allocated_spec(orig));
            }
            r
        }
        Some(last) => {
            let a = last.into_allocated();
            let mut r = entries_into_allocated(entries);
            let ghost before = r@;
            r.push(a);
            proof {
                assert(entries@ == orig.drop_last());
                assert(last == orig.last());
                assert(crate::var_decls_view(r@) =~= crate::var_decls_view(before).push(a@));
            }
            r
        }
    }
}

/// A part of a program: a statement or a declaration, uniformly wrapped so
/// that both can stand in sequence positions.
#[derive(Debug, PartialEq)]
pub enum ProgramPart {
    /// A declaration.
    Decl(Decl),
    /// A statement.
    Stmt(stmt::Stmt),
}

impl Node for ProgramPart {
    open spec fn wf(&self) -> bool
        decreases self,
    {
        match self {
            ProgramPart::Decl(decl) => decl.wf(),
            ProgramPart::Stmt(inner) => inner.wf(),
        }
    }

    open spec fn loc_spec(&self) -> SourceLocation
        decreases self,
    {
        match self {
            ProgramPart::Decl(decl) => decl.loc_spec(),
            ProgramPart::Stmt(inner) => inner.loc_spec(),
        }
    }

    fn loc(&self) -> (loc: SourceLocation)
        decreases self,
    {
        match self {
            ProgramPart::Decl(decl) => decl.loc(),
            ProgramPart::Stmt(inner) => inner.loc(),
        }
    }

    proof fn lemma_loc_ordered(&self)
        decreases self,
    {
        match self {
            ProgramPart::Decl(_) => {},
            ProgramPart::Stmt(inner) => inner.lemma_loc_ordered(),
        }
    }
}

impl ProgramPart {
    /// The allocated counterpart of this part.
    pub open spec fn into_allocated_spec(self) -> crate::SpecProgramPart
        decreases self,
    {
        match self {
            ProgramPart::Decl(decl) => crate::SpecProgramPart::Decl(decl.into_allocated_spec()),
            ProgramPart::Stmt(inner) => crate::SpecProgramPart::Stmt(inner.into_allocated_spec()),
        }
    }

    /// Convert into the allocated form.
    pub fn into_allocated(self) -> (r: crate::ProgramPart)
        ensures
            r@ == self.into_allocated_spec(),
        decreases self,
    {
        match self {
            ProgramPart::Decl(decl) => crate::ProgramPart::Decl(decl.into_allocated()),
            ProgramPart::Stmt(inner) => crate::ProgramPart::Stmt(inner.into_allocated()),
        }
    }
}

/// The elementwise conversion of a sequence of program parts, in order.
pub open spec fn parts_into_allocated_spec(parts: Seq<ProgramPart>) -> Seq<crate::SpecProgramPart>
    decreases parts,
{
    if parts.len() == 0 {
        Seq::empty()
    } else {
        parts_into_allocated_spec(parts.drop_last()).push(parts.last().into_allocated_spec())
    }
}

/// Converting a sequence of parts keeps its length and converts each part in
/// place.
pub proof fn lemma_parts_into_allocated_elementwise(parts: Seq<ProgramPart>)
    ensures
        parts_into_allocated_spec(parts).len() == parts.len(),
        forall|i: int|
            0 <= i < parts.len() ==> parts_into_allocated_spec(parts)[i] == (
            #[trigger] parts[i]).into_allocated_spec(),
    decreases parts,
{
    if parts.len() > 0 {
        lemma_parts_into_allocated_elementwise(parts.drop_last());
        assert forall|i: int|
            0 <= i < parts.len() implies parts_into_allocated_spec(parts)[i] == (
        #[trigger] parts[i]).into_allocated_spec() by {
            if i < parts.len() - 1 {
                assert(parts[i] == parts.drop_last()[i]);
            } else {
                assert(parts[i] == parts.last());
            }
        }
    }
}

/// Convert every part, keeping their order.
pub fn parts_into_allocated(mut parts: Vec<ProgramPart>) -> (r: Vec<crate::ProgramPart>)
    ensures
        crate::parts_view(r@) == parts_into_allocated_spec(parts@),
    decreases parts@,
{
    let ghost orig = parts@;
    match parts.pop() {
        None => {
            let r = Vec::new();
            proof {
                assert(crate::parts_view(r@) =~= parts_into_allocated_spec(orig));
            }
            r
        }
        Some(last) => {
            let a = last.into_allocated();
            let mut r = parts_into_allocated(parts);
            let ghost before = r@;
            r.push(a);
            proof {
                assert(parts@ == orig.drop_last());
                assert(last == orig.last());
                assert(r@.drop_last() =~= before);
                assert(r@.last() == a);
            }
            r
        }
    }
}

/// Whether the elements of `parts` are well formed and follow one another in
/// source order, the first of them no earlier than the offset `prev_end`.
pub open spec fn parts_ordered_from(prev_end: int, parts: Seq<ProgramPart>) -> bool
    decreases parts,
{
    if parts.len() == 0 {
        true
    } else {
        &&& parts.first().wf()
        &&& prev_end <= parts.first().loc_spec().start
        &&& parts_ordered_from(parts.first().loc_spec().end as int, parts.drop_first())
    }
}

/// The end offset of the last element of `parts`, or `default` when `parts`
/// is empty.
pub open spec fn parts_last_end(parts: Seq<ProgramPart>, default: usize) -> usize
    decreases parts,
{
    if parts.len() == 0 {
        default
    } else {
        parts.last().loc_spec().end
    }
}

/// Parts laid out in source order only ever extend an extent to the right:
/// the end of the last part lies no earlier than where the layout began.
/// Every part of such a layout is well formed.
pub proof fn lemma_parts_ordered(prev_end: int, parts: Seq<ProgramPart>, default: usize)
    requires
        parts_ordered_from(prev_end, parts),
        prev_end <= default,
    ensures
        prev_end <= parts_last_end(parts, default),
        forall|i: int| 0 <= i < parts.len() ==> (#[trigger] parts[i]).wf(),
    decreases parts,
{
    if parts.len() > 0 {
        parts.first().lemma_loc_ordered();
        lemma_parts_ordered(
            parts.first().loc_spec().end as int,
            parts.drop_first(),
            parts.first().loc_spec().end,
        );
        if parts.len() > 1 {
            assert(parts.drop_first().last() == parts.last());
        }
        assert forall|i: int| 0 <= i < parts.len() implies (#[trigger] parts[i]).wf() by {
            if i > 0 {
                assert(parts[i] == parts.drop_first()[i - 1]);
            }
        }
    }
}

impl VarDecls {
    /// The allocated counterpart: the plain declarators, in order.
    pub open spec fn into_allocated_spec(self) -> Seq<Seq<char>> {
        entries_into_allocated_spec(self.decls@)
    }

    /// Convert into the allocated form, dropping separators and locations.
    pub fn into_allocated(self) -> (r: Vec<crate::VarDecl>)
        ensures
            crate::var_decls_view(r@) == self.into_allocated_spec(),
    {
        entries_into_allocated(self.decls)
    }
}

} // verus!
