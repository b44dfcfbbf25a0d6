use vstd::prelude::*;

use crate::app::App;
use crate::view::ViewType;

verus! {

/// The text of each string of `v`, in order.
pub open spec fn texts(v: Seq<String>) -> Seq<Seq<char>> {
    v.map_values(|s: String| s@)
}

/// The texts of `v`, or the one placeholder label where `v` is empty.
pub open spec fn or_placeholder(v: Seq<String>, placeholder: Seq<char>) -> Seq<Seq<char>> {
    if v.len() == 0 {
        seq![placeholder]
    } else {
        texts(v)
    }
}

/// The labels shown, and selectable, in `view`.
pub open spec fn items_of(view: ViewType, app: App) -> Seq<Seq<char>> {
    match view {
        ViewType::ProfileSelect => or_placeholder(app.profiles@, "(No profiles found)"@),
        ViewType::Projects => or_placeholder(app.projects@, "(No projects found)"@),
        ViewType::Targets { .. } => or_placeholder(app.targets@, "(No targets found)"@),
        ViewType::Services { .. } => or_placeholder(app.services@, "(No services found)"@),
        ViewType::Schema { .. } => seq!["View SDL"@, "View Supergraph"@],
    }
}

/// A copy of each string of `v`, in order.
fn copy_all(v: &Vec<String>) -> (r: Vec<String>)
    ensures
        r@ == v@,
{
    let mut r: Vec<String> = Vec::new();
    let mut i: usize = 0;
    while i < v.len()
        invariant
            i <= v@.len(),
            r@ == v@.subrange(0, i as int),
        decreases v@.len() - i,
    {
        r.push(v[i].clone());
        i = i + 1;
    }
    assert(r@ =~= v@);
    r
}

/// `v` copied, or the one placeholder label where `v` is empty.
fn labels_or(v: &Vec<String>, placeholder: &str) -> (r: Vec<String>)
    ensures
        texts(r@) == or_placeholder(v@, placeholder@),
        r@.len() >= 1,
{
    if v.len() == 0 {
        let r = vec![String::from_str(placeholder)];
        assert(texts(r@) =~= seq![placeholder@]);
        r
    } else {
        copy_all(v)
    }
}

/// The labels of the rows shown in `view`; never empty, so that the cursor
/// always has a row to stand on.
pub fn get_items_for_view(view: &ViewType, app: &App) -> (r: Vec<String>)
    ensures
        texts(r@) == items_of(*view, *app),
        r@.len() >= 1,
{
    match view {
        ViewType::ProfileSelect => labels_or(&app.profiles, "(No profiles found)"),
        ViewType::Projects => labels_or(&app.projects, "(No projects found)"),
        ViewType::Targets { .. } => labels_or(&app.targets, "(No targets found)"),
        ViewType::Services { .. } => labels_or(&app.services, "(No services found)"),
        ViewType::Schema { .. } => {
            let r = vec![String::from_str("View SDL"), String::from_str("View Supergraph")];
            assert(texts(r@) =~= seq!["View SDL"@, "View Supergraph"@]);
            r
        },
    }
}

} // verus!
