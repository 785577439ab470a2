use vstd::prelude::*;

verus! {

/// Path separator.
pub open spec fn sep() -> char {
    '/'
}

/// `name` appended to the path `dir` as a further component: an absolute
/// `name` replaces `dir`; otherwise a separator is put between the two unless
/// `dir` is empty or already ends with one.
pub open spec fn join(dir: Seq<char>, name: Seq<char>) -> Seq<char> {
    if name.len() > 0 && name[0] == sep() {
        name
    } else if dir.len() == 0 || dir.last() == sep() {
        dir + name
    } else {
        dir + seq![sep()] + name
    }
}

/// Appends the component `name` to the path `dir`.
pub fn join_path(dir: &str, name: &str) -> (r: String)
    ensures
        r@ == join(dir@, name@),
{
    proof {
        reveal_strlit("/");
    }
    let name_len = name.unicode_len();
    if name_len > 0 && name.get_char(0) == '/' {
        return String::from_str(name);
    }
    let dir_len = dir.unicode_len();
    if dir_len == 0 || dir.get_char(dir_len - 1) == '/' {
        String::from_str(dir).concat(name)
    } else {
        String::from_str(dir).concat("/").concat(name)
    }
}

/// Where captured images go when the home directory is not known.
pub open spec fn fallback_dir() -> Seq<char> {
    "/Users/Downloads"@
}

/// The downloads directory of a user whose home directory is `home`, or the
/// fallback when no home directory is known.
pub open spec fn downloads_dir_of(home: Option<Seq<char>>) -> Seq<char> {
    match home {
        Some(h) => join(h, "Downloads"@),
        None => join("/Users"@, "Downloads"@),
    }
}

/// The downloads directory under `home`, or `/Users/Downloads` when `home` is
/// absent. Builds a string only: it looks at no file and never fails.
pub fn downloads_dir(home: Option<&str>) -> (r: String)
    ensures
        r@ == downloads_dir_of(
            match home {
                Some(h) => Some(h@),
                None => None,
            },
        ),
        home is None ==> r@ == fallback_dir(),
{
    let r = match home {
        Some(h) => join_path(h, "Downloads"),
        None => join_path("/Users", "Downloads"),
    };
    proof {
        reveal_strlit("/Users");
        reveal_strlit("Downloads");
        reveal_strlit("/Users/Downloads");
        if home is None {
            assert(r@ =~= fallback_dir());
        }
    }
    r
}

/// The extension of a saved image: `png` when lossless, `jpg` otherwise.
pub open spec fn extension_of(lossless: bool) -> Seq<char> {
    if lossless {
        ".png"@
    } else {
        ".jpg"@
    }
}

/// The name of the file that holds an image with fingerprint `stem`.
pub fn file_name(stem: &str, lossless: bool) -> (r: String)
    ensures
        r@ == stem@ + extension_of(lossless),
{
    if lossless {
        String::from_str(stem).concat(".png")
    } else {
        String::from_str(stem).concat(".jpg")
    }
}

} // verus!
