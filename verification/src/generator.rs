//! Post-processing of the generated foreign-declaration artifact.
//!
//! The declarations for the native storage library are produced by a parser
//! from the library's C headers, outside this crate. As parsed, one
//! declaration — the instance-initialization entry point — ends up inside the
//! wrong linkage scope, so the artifact needs one structural fix-up before it
//! can be used: a linkage-scope boundary must be inserted immediately before
//! that declaration. This module performs that pass over the parsed
//! declaration list, structurally rather than by matching raw text, and
//! renders the patched list back to bytes. Both steps are deterministic:
//! running them twice on an unchanged list yields byte-identical artifacts,
//! which [`lemma_generation_deterministic`] states and proves.
//!
//! The concrete text of the boundary (and the symbol it must precede) is
//! configuration supplied by the caller, not hard-coded here.

use vstd::prelude::*;

verus! {

/// One element of a declaration artifact.
#[derive(PartialEq, Eq, Debug)]
pub enum BindingItem {
    /// A foreign declaration: the symbol it declares, and its full source
    /// text.
    Declaration {
        /// Name of the declared symbol.
        name: Vec<u8>,
        /// Source text of the declaration.
        text: Vec<u8>,
    },
    /// A linkage-scope boundary: closes the scope the preceding declarations
    /// sit in and opens a fresh one bound to the named library.
    LinkageBoundary {
        /// Name of the library the new linkage scope is bound to.
        library: Vec<u8>,
        /// Source text that renders the boundary.
        text: Vec<u8>,
    },
}

/// Failure of the generation step.
#[derive(Clone, Copy, PartialEq, Eq, Structural, Debug)]
pub enum GenerationError {
    /// The declaration the boundary must precede is absent from the parsed
    /// list, so the fix-up cannot be applied.
    MissingDeclaration,
}

/// Whether `item` declares the symbol `target`.
pub open spec fn declares(item: BindingItem, target: Seq<u8>) -> bool {
    item matches BindingItem::Declaration { name, .. } && name@ == target
}

/// Whether some element of `items` declares `target`.
pub open spec fn has_declaration(items: Seq<BindingItem>, target: Seq<u8>) -> bool {
    exists|j: int| 0 <= j < items.len() && declares(items[j], target)
}

/// Whether `i` is the position of the first declaration of `target` in
/// `items`.
pub open spec fn first_declaration(items: Seq<BindingItem>, target: Seq<u8>, i: int) -> bool {
    &&& 0 <= i < items.len()
    &&& declares(items[i], target)
    &&& forall|j: int| 0 <= j < i ==> !declares(items[j], target)
}

/// The source text of one artifact element.
pub open spec fn item_text(item: BindingItem) -> Seq<u8> {
    match item {
        BindingItem::Declaration { text, .. } => text@,
        BindingItem::LinkageBoundary { text, .. } => text@,
    }
}

/// The bytes of a whole artifact: the texts of its elements, in order.
pub open spec fn rendered(items: Seq<BindingItem>) -> Seq<u8>
    decreases items.len(),
{
    if items.len() == 0 {
        Seq::<u8>::empty()
    } else {
        rendered(items.drop_last()) + item_text(items.last())
    }
}

/// Everything [`generate`] promises of its result, as one predicate: the pass
/// succeeds exactly when the target declaration occurs in the list, and on
/// success the artifact is the rendering of the input list with one boundary
/// inserted at the first occurrence.
pub open spec fn generate_post(
    items: Seq<BindingItem>,
    target: Seq<u8>,
    library: Vec<u8>,
    boundary_text: Vec<u8>,
    r: Result<Vec<u8>, GenerationError>,
) -> bool {
    &&& (r is Ok <==> has_declaration(items, target))
    &&& (r matches Ok(bytes) ==> exists|i: int|
        #[trigger] first_declaration(items, target, i) && bytes@ == rendered(
            items.insert(i, (BindingItem::LinkageBoundary { library, text: boundary_text })),
        ))
    &&& (r matches Err(e) ==> e == GenerationError::MissingDeclaration)
}

/// Byte-for-byte equality of two symbol names.
fn names_equal(a: &Vec<u8>, b: &Vec<u8>) -> (r: bool)
    ensures
        r == (a@ == b@),
{
    if a.len() != b.len() {
        return false;
    }
    let mut i: usize = 0;
    while i < a.len()
        invariant
            a@.len() == b@.len(),
            0 <= i <= a@.len(),
            forall|j: int| 0 <= j < i ==> a@[j] == b@[j],
        decreases a@.len() - i,
    {
        if a[i] != b[i] {
            return false;
        }
        i = i + 1;
    }
    assert(a@ =~= b@);
    true
}

/// Position of the first declaration of `target` in `items`, if there is one.
fn find_declaration(items: &Vec<BindingItem>, target: &Vec<u8>) -> (r: Option<usize>)
    ensures
        r matches Some(i) ==> first_declaration(items@, target@, i as int),
        r is None ==> !has_declaration(items@, target@),
{
    let mut i: usize = 0;
    while i < items.len()
        invariant
            0 <= i <= items@.len(),
            forall|j: int| 0 <= j < i ==> !declares(items@[j], target@),
        decreases items@.len() - i,
    {
        let found: bool = match &items[i] {
            BindingItem::Declaration { name, .. } => names_equal(name, target),
            BindingItem::LinkageBoundary { .. } => false,
        };
        if found {
            return Some(i);
        }
        i = i + 1;
    }
    None
}

/// The structural fix-up: `items` with one linkage boundary, bound to
/// `library` and rendering as `boundary_text`, inserted immediately before
/// the first declaration of `target`. Fails, leaving nothing patched, exactly
/// when no element declares `target`.
pub fn insert_linkage_boundary(
    items: Vec<BindingItem>,
    target: &Vec<u8>,
    library: Vec<u8>,
    boundary_text: Vec<u8>,
) -> (r: Result<Vec<BindingItem>, GenerationError>)
    ensures
        r is Ok <==> has_declaration(items@, target@),
        r matches Ok(patched) ==> exists|i: int|
            #[trigger] first_declaration(items@, target@, i) && patched@ == items@.insert(
                i,
                (BindingItem::LinkageBoundary { library, text: boundary_text }),
            ),
        r matches Err(e) ==> e == GenerationError::MissingDeclaration,
{
    let mut patched = items;
    match find_declaration(&patched, target) {
        Some(i) => {
            patched.insert(i, BindingItem::LinkageBoundary { library, text: boundary_text });
            Ok(patched)
        },
        None => Err(GenerationError::MissingDeclaration),
    }
}

/// Render an artifact to bytes: the concatenation of its elements' texts, in
/// order.
pub fn render(items: &Vec<BindingItem>) -> (r: Vec<u8>)
    ensures
        r@ == rendered(items@),
{
    let mut out: Vec<u8> = Vec::new();
    let mut i: usize = 0;
    while i < items.len()
        invariant
            0 <= i <= items@.len(),
            out@ == rendered(items@.take(i as int)),
        decreases items@.len() - i,
    {
        let text: &Vec<u8> = match &items[i] {
            BindingItem::Declaration { text, .. } => text,
            BindingItem::LinkageBoundary { text, .. } => text,
        };
        out.extend_from_slice(text.as_slice());
        proof {
            let prefix = items@.take(i + 1);
            assert(prefix.drop_last() =~= items@.take(i as int));
            assert(prefix.last() == items@[i as int]);
        }
        i = i + 1;
    }
    proof {
        assert(items@.take(items@.len() as int) =~= items@);
    }
    out
}

/// The whole generation pass on a parsed declaration list: insert the
/// linkage boundary, then render the patched artifact to bytes. Its contract
/// is [`generate_post`].
pub fn generate(
    items: Vec<BindingItem>,
    target: &Vec<u8>,
    library: Vec<u8>,
    boundary_text: Vec<u8>,
) -> (r: Result<Vec<u8>, GenerationError>)
    ensures
        generate_post(items@, target@, library, boundary_text, r),
{
    let ghost input = items@;
    let ghost lib = library;
    let ghost btext = boundary_text;
    match insert_linkage_boundary(items, target, library, boundary_text) {
        Ok(patched) => {
            let bytes = render(&patched);
            proof {
                let i = choose|i: int|
                    #[trigger] first_declaration(input, target@, i) && patched@ == input.insert(
                        i,
                        (BindingItem::LinkageBoundary { library: lib, text: btext }),
                    );
                assert(first_declaration(input, target@, i) && bytes@ == rendered(
                    input.insert(i, (BindingItem::LinkageBoundary { library: lib, text: btext })),
                ));
            }
            Ok(bytes)
        },
        Err(e) => Err(e),
    }
}

/// The first declaration of a symbol sits at one position only.
proof fn lemma_first_declaration_unique(
    items: Seq<BindingItem>,
    target: Seq<u8>,
    i1: int,
    i2: int,
)
    requires
        first_declaration(items, target, i1),
        first_declaration(items, target, i2),
    ensures
        i1 == i2,
{
    if i1 < i2 {
        assert(!declares(items[i1], target));
    }
    if i2 < i1 {
        assert(!declares(items[i2], target));
    }
}

/// Determinism of the generation step: two runs on the same parsed
/// declaration list, with the same target symbol and the same boundary
/// configuration, yield byte-identical artifacts — or the same error.
pub proof fn lemma_generation_deterministic(
    items: Seq<BindingItem>,
    target: Seq<u8>,
    library: Vec<u8>,
    boundary_text: Vec<u8>,
    r1: Result<Vec<u8>, GenerationError>,
    r2: Result<Vec<u8>, GenerationError>,
)
    requires
        generate_post(items, target, library, boundary_text, r1),
        generate_post(items, target, library, boundary_text, r2),
    ensures
        match (r1, r2) {
            (Ok(b1), Ok(b2)) => b1@ == b2@,
            (Err(e1), Err(e2)) => e1 == e2,
            _ => false,
        },
{
    if r1 is Ok && r2 is Ok {
        let i1 = choose|i: int|
            #[trigger] first_declaration(items, target, i) && r1->Ok_0@ == rendered(
                items.insert(i, (BindingItem::LinkageBoundary { library, text: boundary_text })),
            );
        let i2 = choose|i: int|
            #[trigger] first_declaration(items, target, i) && r2->Ok_0@ == rendered(
                items.insert(i, (BindingItem::LinkageBoundary { library, text: boundary_text })),
            );
        lemma_first_declaration_unique(items, target, i1, i2);
    }
}

} // verus!
