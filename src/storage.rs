use vstd::prelude::*;

use vstd::string::StringExecFns;

verus! {

/// The directory of the content store under which saved files are listed.
pub open spec fn archive_dir_text() -> Seq<char> {
    "/socialmediaarchive"@
}

/// A content identifier given by the content store.
#[derive(Debug, PartialEq, Eq, Clone, Hash)]
pub struct Cid(pub String);

impl Cid {
    /// The identifier as text.
    pub fn to_string(&self) -> (r: String)
        ensures
            r@ == self.0@,
    {
        self.0.clone()
    }

    /// The store's path of the content itself.
    pub fn content_path(&self) -> (r: String)
        ensures
            r@ == "/ipfs/"@ + self.0@,
    {
        let mut r = "/ipfs/".to_string();
        r.append(self.0.as_str());
        r
    }
}

/// The directory under which saved files are listed.
pub fn archive_dir() -> (r: String)
    ensures
        r@ == archive_dir_text(),
{
    "/socialmediaarchive".to_string()
}

/// The path under which a saved file is listed, by its file name.
pub fn archive_path(file_name: &str) -> (r: String)
    ensures
        r@ == archive_dir_text() + "/"@ + file_name@,
{
    let mut r = archive_dir();
    r.append("/");
    r.append(file_name);
    assert(r@ =~= archive_dir_text() + "/"@ + file_name@);
    r
}

} // verus!
