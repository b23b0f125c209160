//! What the window hands to the store and to the icon loader.
use vstd::prelude::*;
use crate::model::opt_str_view;

verus! {

/// The name given to a collection the user creates.
pub const NEW_COLLECTION_NAME: &'static str = "New Collection";

/// The directory that holds the icon pack, relative to the working directory.
pub const ICON_PACK_DIR: &'static str = "ui/icons_pack/";

/// Which collections to list.
#[derive(Debug, PartialEq, Eq)]
pub enum CollectionQuery {
    /// All collections.
    All,
    /// The collections that match the text.
    Matching(String),
}

/// The query for the text typed into the search field: all collections for
/// an empty text, the matching ones otherwise.
pub fn collection_query(search: String) -> (res: CollectionQuery)
    ensures
        search@.len() == 0 ==> res is All,
        search@.len() != 0 ==> (res matches CollectionQuery::Matching(t) && t@ == search@),
{
    if search.as_str().is_empty() {
        CollectionQuery::All
    } else {
        CollectionQuery::Matching(search)
    }
}

/// The flag the store keeps for a header: 1 where it is active, 0 where not.
pub open spec fn active_flag_of(active: bool) -> i64 {
    if active { 1 } else { 0 }
}

/// The flag the store keeps for a header.
pub fn active_flag(active: bool) -> (res: i64)
    ensures
        res == active_flag_of(active),
{
    if active { 1 } else { 0 }
}

/// The path of the icon file `icon` in the icon pack.
pub fn icon_path(icon: &str) -> (res: String)
    ensures
        res@ == ICON_PACK_DIR@ + icon@,
{
    let mut path = ICON_PACK_DIR.to_owned();
    path.append(icon);
    path
}

/// The last component of the path `path`, as `std::path::Path::file_name`
/// gives it; `None` where the path has none (where it ends in `..`, for one).
pub uninterp spec fn file_name_of(path: Seq<char>) -> Option<Seq<char>>;

/// The last component of the path `path`.
///
/// Calls `std::path::Path::file_name` on the path and converts the component
/// to a `String`; the component of a path that is valid UTF-8 is valid UTF-8,
/// so the conversion changes nothing. The contract names the result, a
/// function of the path alone.
#[verifier::external_body]
fn file_name(path: &str) -> (res: Option<String>)
    ensures
        opt_str_view(res) == file_name_of(path@),
{
    match std::path::Path::new(path).file_name() {
        Some(name) => Some(name.to_string_lossy().to_string()),
        None => None,
    }
}

/// An icon of the pack with the result of loading it, in views.
pub open spec fn icon_load_view(p: (String, Option<usize>)) -> (Seq<char>, Option<usize>) {
    (p.0@, p.1)
}

/// A shown icon, in views.
pub open spec fn icon_view(p: (String, usize)) -> (Seq<char>, usize) {
    (p.0@, p.1)
}

/// Every icon of the pack that loaded has a file name in the pack.
pub open spec fn loaded_icons_have_names(loaded: Seq<(Seq<char>, Option<usize>)>) -> bool {
    forall|i: int|
        0 <= i < loaded.len() && (#[trigger] loaded[i]).1 is Some ==> file_name_of(
            ICON_PACK_DIR@ + loaded[i].0,
        ) is Some
}

/// The icon offered for an icon of the pack: the file name of its path with
/// the handle of its image, or `None` where it failed to load.
pub open spec fn icon_shown_of(p: (Seq<char>, Option<usize>)) -> Option<(Seq<char>, usize)> {
    match p.1 {
        Some(handle) => Some((file_name_of(ICON_PACK_DIR@ + p.0).unwrap(), handle)),
        None => None,
    }
}

/// The icons offered for the icons of the pack, each named after the file
/// name of its path and given with the handle of its loaded image: those that
/// loaded, in the order of the pack.
pub fn icons_shown(loaded: Vec<(String, Option<usize>)>) -> (res: Vec<(String, usize)>)
    requires
        loaded_icons_have_names(loaded@.map_values(|p: (String, Option<usize>)| icon_load_view(p))),
    ensures
        res@.map_values(|p: (String, usize)| icon_view(p)) == loaded@.map_values(
            |p: (String, Option<usize>)| icon_load_view(p),
        ).filter_map(|p: (Seq<char>, Option<usize>)| icon_shown_of(p)),
{
    let ghost src = loaded@;
    let ghost vsrc = src.map_values(|p: (String, Option<usize>)| icon_load_view(p));
    let ghost f = |p: (Seq<char>, Option<usize>)| icon_shown_of(p);
    let mut res: Vec<(String, usize)> = Vec::new();
    for pair in it: loaded
        invariant
            it.seq() == src,
            vsrc == src.map_values(|p: (String, Option<usize>)| icon_load_view(p)),
            loaded_icons_have_names(vsrc),
            f == (|p: (Seq<char>, Option<usize>)| icon_shown_of(p)),
            res@.map_values(|p: (String, usize)| icon_view(p)) == vsrc.take(it.index() as int).filter_map(f),
    {
        let ghost k = it.index();
        assert(pair == src[k as int]);
        assert(vsrc[k as int] == icon_load_view(pair));
        assert(vsrc.take(k + 1).drop_last() =~= vsrc.take(k as int));
        assert(vsrc.take(k + 1).last() == icon_load_view(pair));
        let ghost before = res@;
        let (icon, loaded_handle) = pair;
        if let Some(handle) = loaded_handle {
            match file_name(icon_path(icon.as_str()).as_str()) {
                Some(name) => {
                    res.push((name, handle));
                    assert(res@.map_values(|p: (String, usize)| icon_view(p)) =~= before.map_values(
                        |p: (String, usize)| icon_view(p),
                    ).push(icon_view(res@.last())));
                },
                None => {
                    assert(false);
                },
            }
        }
    }
    assert(vsrc.take(src.len() as int) =~= vsrc);
    res
}

/// The icons offered for the icons of the pack, as `icons_shown` gives them,
/// or `None` where an icon that loaded has no file name in the pack (its name
/// ends in `..`, for one).
pub fn try_icons_shown(loaded: Vec<(String, Option<usize>)>) -> (res: Option<Vec<(String, usize)>>)
    ensures
        res is Some <==> loaded_icons_have_names(
            loaded@.map_values(|p: (String, Option<usize>)| icon_load_view(p)),
        ),
        res matches Some(v) ==> v@.map_values(|p: (String, usize)| icon_view(p)) == loaded@.map_values(
            |p: (String, Option<usize>)| icon_load_view(p),
        ).filter_map(|p: (Seq<char>, Option<usize>)| icon_shown_of(p)),
{
    let ghost vsrc = loaded@.map_values(|p: (String, Option<usize>)| icon_load_view(p));
    let n = loaded.len();
    for i in 0..n
        invariant
            n == loaded@.len(),
            vsrc == loaded@.map_values(|p: (String, Option<usize>)| icon_load_view(p)),
            forall|j: int|
                0 <= j < i && (#[trigger] vsrc[j]).1 is Some ==> file_name_of(ICON_PACK_DIR@ + vsrc[j].0) is Some,
    {
        assert(vsrc[i as int] == icon_load_view(loaded@[i as int]));
        if loaded[i].1.is_some() {
            if file_name(icon_path(loaded[i].0.as_str()).as_str()).is_none() {
                return None;
            }
        }
    }
    Some(icons_shown(loaded))
}

} // verus!
