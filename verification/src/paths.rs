use vstd::prelude::*;

use crate::text::text_ends_with;

verus! {

/// `text` begins with `\\?`, as every Windows verbatim path (`\\?\`) does.
/// Joining onto such a path may rewrite the joined part, so the claims
/// below leave these bases out.
pub open spec fn may_be_verbatim(text: Seq<char>) -> bool {
    text.len() >= 3 && text[0] == '\\' && text[1] == '\\' && text[2] == '?'
}

/// A relative path that no platform reads a root or a prefix into: not
/// empty, not beginning with `/`, `\` or `?`, and free of `:`. Such a part
/// is appended by `Path::join` rather than put in the base's place.
pub open spec fn relative_part(part: Seq<char>) -> bool {
    &&& part.len() > 0
    &&& part[0] != '/'
    &&& part[0] != '\\'
    &&& part[0] != '?'
    &&& !part.contains(':')
}

/// `joined` is `base` with the relative path `part` added as `Path::join` adds
/// it on Unix or on Windows: the name alone where the base is empty, right
/// after a base that ends in a separator of the platform, and otherwise
/// after the platform's separator (or right after a bare drive such as
/// `C:`).
pub open spec fn joined_with(base: Seq<char>, part: Seq<char>, joined: Seq<char>) -> bool {
    if base.len() == 0 {
        joined == part
    } else if base.last() == '/' {
        joined == base + part
    } else if base.last() == '\\' {
        joined == base + part || joined == base + seq!['/'] + part
    } else {
        joined == base + part || joined == base + seq!['/'] + part || joined == base + seq!['\\']
            + part
    }
}

/// Joining a relative path onto a base that does not begin with `\\?` gives a
/// path that does not begin with it either.
pub proof fn lemma_joined_not_verbatim(base: Seq<char>, part: Seq<char>, joined: Seq<char>)
    requires
        !may_be_verbatim(base),
        relative_part(part),
        joined_with(base, part, joined),
    ensures
        !may_be_verbatim(joined),
        joined.len() > base.len(),
        joined.take(base.len() as int) == base,
{
    assert(part[0] != '?' && part[0] != '\\');
    assert(joined.take(base.len() as int) =~= base);
}

/// `Path::join`, written back as text. std documents that an absolute
/// `part` replaces `base`, that otherwise `part` follows `base` after a
/// separator where `base` does not already end in one, and that on
/// Windows a verbatim base (`\\?\`) has the joined part rewritten. So,
/// where `base` does not begin with `\\?`: a non-empty `part` ends the
/// result, and a relative path is added as `joined_with` says. Which
/// separator is used, and what counts as absolute, belong to the platform
/// and are left open.
#[verifier::external_body]
pub(crate) fn join_path(base: &str, part: &str) -> (joined: String)
    ensures
        !may_be_verbatim(base@) && part@.len() > 0 ==> text_ends_with(joined@, part@),
        !may_be_verbatim(base@) && relative_part(part@) ==> joined_with(base@, part@, joined@),
{
    std::path::Path::new(base).join(part).to_string_lossy().into_owned()
}

/// `Path::is_absolute`. std documents that on Unix a path is absolute when
/// it starts with the root, and on Windows when it has a prefix (a drive
/// such as `C:`, or one beginning `\\`) and a root; either way an absolute
/// path is not empty and begins with `/` or `\`, or holds a `:`. That is
/// all that is claimed.
#[verifier::external_body]
fn is_absolute_path(path: &str) -> (absolute: bool)
    ensures
        absolute ==> path@.len() > 0 && (path@[0] == '/' || path@[0] == '\\' || path@.contains(
            ':',
        )),
{
    std::path::Path::new(path).is_absolute()
}

/// `Path::parent`, written back as text: the path without its last part,
/// or nothing for a root, a prefix or an empty path. std documents it as
/// the path with its final part taken off, so where there is one it is a
/// shorter beginning of the path; how a path splits into parts belongs to
/// the platform and is not claimed.
#[verifier::external_body]
fn parent_path(path: &str) -> (parent: Option<String>)
    ensures
        parent matches Some(p) ==> p@.len() < path@.len() && path@.take(p@.len() as int) == p@,
{
    std::path::Path::new(path).parent().map(|parent| parent.to_string_lossy().into_owned())
}

/// The path of `filename` in the `assets` directory under `root`, the
/// project's own directory.
pub fn asset_path(root: &str, filename: &str) -> (path: String)
    ensures
        !may_be_verbatim(root@) && relative_part(filename@) ==> exists|assets: Seq<char>|
            #[trigger] joined_with(root@, "assets"@, assets) && joined_with(
                assets,
                filename@,
                path@,
            ),
        !may_be_verbatim(root@) && filename@.len() > 0 ==> text_ends_with(path@, filename@),
{
    let assets = join_path(root, "assets");
    proof {
        reveal_strlit("assets");
        if !may_be_verbatim(root@) {
            assert(relative_part("assets"@));
            lemma_joined_not_verbatim(root@, "assets"@, assets@);
        }
    }
    join_path(assets.as_str(), filename)
}

/// The `.a3d` demo that the terminal application opens first, under `root`,
/// the project's own directory: `root`, `assets`, `a3d`, `p_depth_demo`.
pub fn default_a3d_root_path(root: &str) -> (path: String)
    ensures
        !may_be_verbatim(root@) ==> exists|assets: Seq<char>, a3d: Seq<char>|
            #[trigger] joined_with(root@, "assets"@, assets) && #[trigger] joined_with(
                assets,
                "a3d"@,
                a3d,
            ) && joined_with(a3d, "p_depth_demo"@, path@),
        !may_be_verbatim(root@) ==> text_ends_with(path@, "p_depth_demo"@),
{
    let assets = join_path(root, "assets");
    let a3d = join_path(assets.as_str(), "a3d");
    let path = join_path(a3d.as_str(), "p_depth_demo");
    proof {
        reveal_strlit("assets");
        reveal_strlit("a3d");
        reveal_strlit("p_depth_demo");
        if !may_be_verbatim(root@) {
            assert(relative_part("assets"@));
            assert(relative_part("a3d"@));
            assert(relative_part("p_depth_demo"@));
            lemma_joined_not_verbatim(root@, "assets"@, assets@);
            lemma_joined_not_verbatim(assets@, "a3d"@, a3d@);
        }
    }
    path
}

/// `path` as it stands where it is absolute, else under `root`.
pub fn resolve_path(root: &str, path: &str) -> (resolved: String)
    ensures
        !may_be_verbatim(root@) && relative_part(path@) ==> joined_with(root@, path@, resolved@),
        !may_be_verbatim(root@) && path@.len() > 0 ==> text_ends_with(resolved@, path@),
{
    if is_absolute_path(path) {
        let resolved = path.to_owned();
        proof {
            assert(path@.subrange(0, path@.len() as int) =~= path@);
            if relative_part(path@) {
                assert(path@[0] != '/' && path@[0] != '\\');
                assert(!path@.contains(':'));
            }
        }
        resolved
    } else {
        join_path(root, path)
    }
}

/// The path of the mesh `mesh_asset` named by the scene at `scene_path`:
/// as it stands where it is absolute, else under the directory two levels
/// above the scene, or under `assets` where there is none.
pub fn resolve_mesh_path(scene_path: &str, mesh_asset: &str) -> (resolved: String)
    ensures
        !may_be_verbatim(scene_path@) && relative_part(mesh_asset@) ==> exists|base: Seq<char>|
            (base == "assets"@ || (base.len() + 2 <= scene_path@.len() && scene_path@.take(
                base.len() as int,
            ) == base)) && #[trigger] joined_with(base, mesh_asset@, resolved@),
        !may_be_verbatim(scene_path@) && mesh_asset@.len() > 0 ==> text_ends_with(
            resolved@,
            mesh_asset@,
        ),
{
    if is_absolute_path(mesh_asset) {
        let resolved = mesh_asset.to_owned();
        proof {
            assert(mesh_asset@.subrange(0, mesh_asset@.len() as int) =~= mesh_asset@);
            if relative_part(mesh_asset@) {
                assert(mesh_asset@[0] != '/' && mesh_asset@[0] != '\\');
                assert(!mesh_asset@.contains(':'));
            }
        }
        return resolved;
    }
    let assets_root = match parent_path(scene_path) {
        Some(scene_dir) => match parent_path(scene_dir.as_str()) {
            Some(root) => {
                proof {
                    assert(scene_path@.take(root@.len() as int) =~= scene_dir@.take(
                        root@.len() as int,
                    ));
                }
                root
            },
            None => "assets".to_owned(),
        },
        None => "assets".to_owned(),
    };
    proof {
        reveal_strlit("assets");
        if !may_be_verbatim(scene_path@) && assets_root@ != "assets"@ {
            if assets_root@.len() >= 3 {
                assert(assets_root@[0] == scene_path@[0]);
                assert(assets_root@[1] == scene_path@[1]);
                assert(assets_root@[2] == scene_path@[2]);
            }
        }
    }
    join_path(assets_root.as_str(), mesh_asset)
}

} // verus!
