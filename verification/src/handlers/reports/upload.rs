//! Uploading evidence files ahead of a report.

use vstd::prelude::*;

use crate::text::push_str;

verus! {

/// Where uploads wait until a report claims them.
pub const UPLOAD_DIR: &'static str = "data/tmp";

/// The URL an uploaded file is announced under.
pub fn upload_url(unique_name: &str) -> (u: String)
    ensures
        u@ == "/data/exposes/"@ + unique_name@,
{
    let mut u = String::new();
    push_str(&mut u, "/data/exposes/");
    push_str(&mut u, unique_name);
    u
}

/// The part name an upload is announced with, `file` when it has none.
pub fn upload_field_name(name: Option<&str>) -> (n: String)
    ensures
        n@ == (match name {
            Some(f) => f@,
            None => "file"@,
        }),
{
    let mut n = String::new();
    match name {
        Some(f) => push_str(&mut n, f),
        None => push_str(&mut n, "file"),
    }
    proof {
        assert(n@ =~= (match name {
            Some(f) => f@,
            None => "file"@,
        }));
    }
    n
}

/// The name an upload is stored under when it names no file, `upload.dat`.
pub fn upload_file_name(file_name: Option<&str>) -> (n: String)
    ensures
        n@ == (match file_name {
            Some(f) => f@,
            None => "upload.dat"@,
        }),
{
    let mut n = String::new();
    match file_name {
        Some(f) => push_str(&mut n, f),
        None => push_str(&mut n, "upload.dat"),
    }
    proof {
        assert(n@ =~= (match file_name {
            Some(f) => f@,
            None => "upload.dat"@,
        }));
    }
    n
}

} // verus!
