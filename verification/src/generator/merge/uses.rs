//! Imports: the names an import brings into scope, and whether a list of
//! declarations already holds an import of one of them.

use vstd::prelude::*;
use crate::generator::merge::errors::ComparisonError;
use crate::generator::search::{
    first_index, lemma_first_index_is, lemma_first_index_none, positions,
};
use crate::generator::tree::{
    same_text, Declaration, DeclarationView, Import, ImportEntryView, ImportLeaf, ImportLeafView,
    ImportView,
};

verus! {

/// The property of being an imported path with an alias or a wildcard.
pub open spec fn unsupported_entry() -> spec_fn(ImportEntryView) -> bool {
    |entry: ImportEntryView| !(entry.leaf is Name)
}

/// Whether every path of the import ends in a plain name.
pub open spec fn import_supported(import: ImportView) -> bool {
    first_index(import.entries, unsupported_entry()) is None
}

/// The name that an imported path ends in.
pub open spec fn leaf_name(leaf: ImportLeafView) -> Seq<char> {
    match leaf {
        ImportLeafView::Name(name) => name,
        ImportLeafView::Alias { alias, .. } => alias,
        ImportLeafView::Wildcard => Seq::empty(),
    }
}

/// The names that the import brings into scope, one for each of its paths.
pub open spec fn leaf_names(import: ImportView) -> Seq<Seq<char>> {
    Seq::new(import.entries.len(), |i: int| leaf_name(import.entries[i].leaf))
}

/// Whether two lists of names have a name in common.
pub open spec fn share_name(a: Seq<Seq<char>>, b: Seq<Seq<char>>) -> bool {
    exists|i: int, j: int| 0 <= i < a.len() && 0 <= j < b.len() && #[trigger] a[i] == #[trigger] b[j]
}

/// What is said of an import with an alias.
pub open spec fn alias_message() -> Seq<char> {
    "Usage of aliases in use clauses is not yet supported. Specify dependencies you want to use!"@
}

/// What is said of an import with a wildcard.
pub open spec fn wildcard_message() -> Seq<char> {
    "Usage of * in use clauses is not yet supported. Specify dependencies you want to use!"@
}

/// What is said of an import that is not supported: the message for its
/// first path with an alias or a wildcard.
pub open spec fn refusal_message(import: ImportView) -> Seq<char> {
    match first_index(import.entries, unsupported_entry()) {
        Some(i) => if import.entries[i].leaf is Alias {
            alias_message()
        } else {
            wildcard_message()
        },
        None => Seq::empty(),
    }
}

/// The names that an import brings into scope. An import with an alias or a
/// wildcard is refused, with the message for the first such path.
pub fn get_last_path_segments(import: &Import) -> (names: Result<Vec<String>, ComparisonError>)
    ensures
        match names {
            Ok(list) => import_supported(import@) && list.deep_view() == leaf_names(import@),
            Err(error) => !import_supported(import@) && error.0@ == refusal_message(import@),
        },
{
    let ghost entries = import@.entries;
    let mut result: Vec<String> = Vec::new();
    let mut i: usize = 0;
    while i < import.entries.len()
        invariant
            0 <= i <= import.entries.len(),
            entries == import@.entries,
            forall|j: int| 0 <= j < i ==> !unsupported_entry()(#[trigger] entries[j]),
            result.len() == i,
            forall|k: int| 0 <= k < i ==> (#[trigger] result[k])@ == leaf_name(entries[k].leaf),
        decreases import.entries.len() - i,
    {
        match &import.entries[i].leaf {
            ImportLeaf::Name(name) => {
                result.push(name.clone());
            },
            ImportLeaf::Alias { .. } => {
                proof {
                    lemma_first_index_is(entries, unsupported_entry(), i as int);
                }
                return Err(
                    ComparisonError::new(
                        "Usage of aliases in use clauses is not yet supported. Specify dependencies you want to use!",
                    ),
                );
            },
            ImportLeaf::Wildcard => {
                proof {
                    lemma_first_index_is(entries, unsupported_entry(), i as int);
                }
                return Err(
                    ComparisonError::new(
                        "Usage of * in use clauses is not yet supported. Specify dependencies you want to use!",
                    ),
                );
            },
        }
        i += 1;
    }
    proof {
        lemma_first_index_none(entries, unsupported_entry());
        assert(result.deep_view() =~= leaf_names(import@));
    }
    Ok(result)
}

/// Whether two lists of names have a name in common.
pub fn names_overlap(a: &Vec<String>, b: &Vec<String>) -> (overlap: bool)
    ensures
        overlap == share_name(a.deep_view(), b.deep_view()),
{
    let ghost left = a.deep_view();
    let ghost right = b.deep_view();
    let mut i: usize = 0;
    while i < a.len()
        invariant
            0 <= i <= a.len(),
            left == a.deep_view(),
            right == b.deep_view(),
            forall|k: int, l: int|
                0 <= k < i && 0 <= l < right.len() ==> #[trigger] left[k] != #[trigger] right[l],
        decreases a.len() - i,
    {
        let mut j: usize = 0;
        while j < b.len()
            invariant
                0 <= i < a.len(),
                0 <= j <= b.len(),
                left == a.deep_view(),
                right == b.deep_view(),
                forall|k: int, l: int|
                    0 <= k < i && 0 <= l < right.len() ==> #[trigger] left[k] != #[trigger] right[l],
                forall|l: int| 0 <= l < j ==> left[i as int] != #[trigger] right[l],
            decreases b.len() - j,
        {
            if same_text(&a[i], &b[j]) {
                assert(left[i as int] == right[j as int]);
                return true;
            }
            j += 1;
        }
        i += 1;
    }
    false
}

/// Whether two imports bring a common name into scope. The comparison is
/// refused where either import has an alias or a wildcard; the message is
/// that of the first import that has one.
pub fn already_has_the_same_use(use1: &Import, use2: &Import) -> (same: Result<bool, ComparisonError>)
    ensures
        match same {
            Ok(found) => import_supported(use1@) && import_supported(use2@) && found == share_name(
                leaf_names(use1@),
                leaf_names(use2@),
            ),
            Err(error) => if !import_supported(use1@) {
                error.0@ == refusal_message(use1@)
            } else {
                !import_supported(use2@) && error.0@ == refusal_message(use2@)
            },
        },
{
    let names1 = match get_last_path_segments(use1) {
        Ok(names) => names,
        Err(error) => {
            return Err(error);
        },
    };
    let names2 = match get_last_path_segments(use2) {
        Ok(names) => names,
        Err(error) => {
            return Err(error);
        },
    };
    Ok(names_overlap(&names1, &names2))
}

/// The property of ending the search for an import of a name of `import`:
/// being an import that has such a name, or that cannot be compared.
pub open spec fn ends_search(import: ImportView) -> spec_fn(DeclarationView) -> bool {
    |declaration: DeclarationView|
        match declaration {
            DeclarationView::Import(other) => !import_supported(other) || share_name(
                leaf_names(other),
                leaf_names(import),
            ),
            _ => false,
        }
}

/// Whether `items` holds an import of a name that `import` brings in:
/// `Some(true)` where the first import that ends the search has such a name,
/// `Some(false)` where no import ends it, and `None` where the comparison
/// is refused, because `import` or the import that ends the search has an
/// alias or a wildcard.
pub open spec fn import_presence(items: Seq<DeclarationView>, import: ImportView) -> Option<bool> {
    if !import_supported(import) {
        None
    } else {
        match first_index(items, ends_search(import)) {
            None => Some(false),
            Some(i) => if import_supported(items[i]->Import_0) {
                Some(true)
            } else {
                None
            },
        }
    }
}

/// What is said where the search for an import is refused: the message of
/// `import` where it is not supported itself, else that of the import that
/// ends the search.
pub open spec fn presence_refusal(items: Seq<DeclarationView>, import: ImportView) -> Seq<char> {
    if !import_supported(import) {
        refusal_message(import)
    } else {
        match first_index(items, ends_search(import)) {
            Some(i) => refusal_message(items[i]->Import_0),
            None => Seq::empty(),
        }
    }
}

/// Whether the declarations hold an import that brings in a name that
/// `compare_use` brings in too.
pub fn has_use(items: &Vec<Declaration>, compare_use: &Import) -> (found: Result<
    bool,
    ComparisonError,
>)
    ensures
        match found {
            Ok(present) => import_presence(items.deep_view(), compare_use@) == Some(present),
            Err(error) => import_presence(items.deep_view(), compare_use@) is None && error.0@
                == presence_refusal(items.deep_view(), compare_use@),
        },
{
    match get_last_path_segments(compare_use) {
        Ok(_) => {},
        Err(error) => {
            return Err(error);
        },
    }
    let ghost views = items.deep_view();
    let ghost wanted = ends_search(compare_use@);
    let mut i: usize = 0;
    while i < items.len()
        invariant
            0 <= i <= items.len(),
            views == items.deep_view(),
            wanted == ends_search(compare_use@),
            import_supported(compare_use@),
            forall|j: int| 0 <= j < i ==> !wanted(#[trigger] views[j]),
        decreases items.len() - i,
    {
        match &items[i] {
            Declaration::Import(item_use) => {
                match already_has_the_same_use(item_use, compare_use) {
                    Err(error) => {
                        proof {
                            lemma_first_index_is(views, wanted, i as int);
                        }
                        return Err(error);
                    },
                    Ok(true) => {
                        proof {
                            lemma_first_index_is(views, wanted, i as int);
                        }
                        return Ok(true);
                    },
                    Ok(false) => {},
                }
            },
            _ => {},
        }
        i += 1;
    }
    proof {
        lemma_first_index_none(views, wanted);
    }
    Ok(false)
}

/// The property of being an import.
pub open spec fn is_import() -> spec_fn(DeclarationView) -> bool {
    |declaration: DeclarationView| declaration is Import
}

/// The positions of all imports among the declarations, in order.
pub fn extract_uses(items: &Vec<Declaration>) -> (found: Vec<usize>)
    ensures
        found@.map_values(|i: usize| i as int) == positions(items.deep_view(), is_import()),
        forall|k: int|
            0 <= k < found.len() ==> #[trigger] found[k] < items.len() && items[found[k] as int] is Import,
{
    let ghost views = items.deep_view();
    let mut found: Vec<usize> = Vec::new();
    let mut i: usize = 0;
    assert(views.take(0) =~= Seq::<DeclarationView>::empty());
    while i < items.len()
        invariant
            0 <= i <= items.len(),
            views == items.deep_view(),
            found@.map_values(|i: usize| i as int) =~= positions(views.take(i as int), is_import()),
            forall|k: int|
                0 <= k < found.len() ==> #[trigger] found[k] < items.len() && items[found[k] as int] is Import,
        decreases items.len() - i,
    {
        proof {
            assert(views.take(i as int + 1).drop_last() =~= views.take(i as int));
            assert(views.take(i as int + 1).last() == views[i as int]);
        }
        match &items[i] {
            Declaration::Import(_) => {
                found.push(i);
            },
            _ => {},
        }
        i += 1;
    }
    proof {
        assert(views.take(i as int) =~= views);
    }
    found
}

/// An import that shares a name with the import at the front of the
/// declarations is found to be present, whatever the paths in front of the
/// name are.
pub proof fn lemma_shared_leaf_is_duplicate(
    rest: Seq<DeclarationView>,
    first: ImportView,
    second: ImportView,
)
    requires
        import_supported(first),
        import_supported(second),
        share_name(leaf_names(first), leaf_names(second)),
    ensures
        import_presence(seq![DeclarationView::Import(first)] + rest, second) == Some(true),
{
    let items = seq![DeclarationView::Import(first)] + rest;
    assert(items[0] == DeclarationView::Import(first));
    lemma_first_index_is(items, ends_search(second), 0);
}

} // verus!
