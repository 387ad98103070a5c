//! Where the assets live, relative to the process's working directory.
//!
//! The process may run from the project root or from a build directory one or
//! two levels below it, so the `public` directory is looked for at three
//! places, in a fixed order.
use vstd::prelude::*;
use vstd::string::*;

verus! {

/// How many places the `public` directory is looked for at.
pub const ROOT_COUNT: usize = 3;

/// The `public` directory as seen from each possible working directory, in
/// the order in which they are tried.
pub open spec fn public_root(i: int) -> Seq<char> {
    if i == 0 {
        "../public"@
    } else if i == 1 {
        "public"@
    } else {
        "../../public"@
    }
}

/// The catalogue file under a candidate root.
pub open spec fn catalog_path(i: int) -> Seq<char> {
    public_root(i) + "/games.json"@
}

/// The assets directory under a candidate root.
pub open spec fn assets_dir(i: int) -> Seq<char> {
    public_root(i) + "/assets"@
}

/// The directory that holds one game's files, under a candidate root.
pub open spec fn game_dir(i: int, game_id: Seq<char>) -> Seq<char> {
    assets_dir(i) + "/games/"@ + game_id
}

/// Where a file named `file_name` of a game is stored, under a candidate root.
pub open spec fn dest_file(i: int, game_id: Seq<char>, file_name: Seq<char>) -> Seq<char> {
    game_dir(i, game_id) + "/"@ + file_name
}

/// The path under which the served application reaches a game's file.
pub open spec fn web_path(game_id: Seq<char>, file_name: Seq<char>) -> Seq<char> {
    "/assets/games/"@ + game_id + "/"@ + file_name
}

/// The name a game's video is stored under.
pub open spec fn video_name() -> Seq<char> {
    "video.mp4"@
}

/// The name a game's cover image is stored under, for a given extension.
pub open spec fn cover_name(ext: Seq<char>) -> Seq<char> {
    "cover."@ + ext
}

/// The extension given to a cover whose source has none.
pub open spec fn default_cover_ext() -> Seq<char> {
    "jpg"@
}

/// Candidate root `i`'s `public` directory.
pub fn public_root_path(i: usize) -> (r: String)
    requires
        i < ROOT_COUNT,
    ensures
        r@ == public_root(i as int),
{
    if i == 0 {
        "../public".to_owned()
    } else if i == 1 {
        "public".to_owned()
    } else {
        "../../public".to_owned()
    }
}

/// Candidate root `i`'s catalogue file.
pub fn catalog_path_at(i: usize) -> (r: String)
    requires
        i < ROOT_COUNT,
    ensures
        r@ == catalog_path(i as int),
{
    let mut s = public_root_path(i);
    s.append("/games.json");
    s
}

/// Candidate root `i`'s assets directory.
pub fn assets_dir_at(i: usize) -> (r: String)
    requires
        i < ROOT_COUNT,
    ensures
        r@ == assets_dir(i as int),
{
    let mut s = public_root_path(i);
    s.append("/assets");
    s
}

/// Candidate root `i`'s directory for the game `game_id`.
pub fn game_dir_at(i: usize, game_id: &str) -> (r: String)
    requires
        i < ROOT_COUNT,
    ensures
        r@ == game_dir(i as int, game_id@),
{
    let mut s = assets_dir_at(i);
    s.append("/games/");
    s.append(game_id);
    s
}

/// Candidate root `i`'s path for the file `file_name` of the game `game_id`.
pub fn dest_file_at(i: usize, game_id: &str, file_name: &str) -> (r: String)
    requires
        i < ROOT_COUNT,
    ensures
        r@ == dest_file(i as int, game_id@, file_name@),
{
    let mut s = game_dir_at(i, game_id);
    s.append("/");
    s.append(file_name);
    s
}

/// The web path of the file `file_name` of the game `game_id`.
pub fn web_path_of(game_id: &str, file_name: &str) -> (r: String)
    ensures
        r@ == web_path(game_id@, file_name@),
{
    let mut s = "/assets/games/".to_owned();
    s.append(game_id);
    s.append("/");
    s.append(file_name);
    s
}

} // verus!
