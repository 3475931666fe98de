//! Settings kept in the data directory: the home network, the folders the
//! ransomware watcher covers, and the access rules applied to the directory.
//! The caller reads and writes the files; this module decides their content.

use vstd::prelude::*;
use crate::text::{views, trim, trimmed, append, owned, trimmed_lines, trimmed_lines_of};

verus! {

/// The home SSID stored in a settings file: its trimmed content, if any.
pub fn load_home_ssid(content: Option<String>) -> (r: Option<String>)
    ensures
        match content {
            Some(c) => if trimmed(c@).len() > 0 {
                r matches Some(s) && s@ == trimmed(c@)
            } else {
                r is None
            },
            None => r is None,
        },
{
    match &content {
        Some(c) => {
            let t = trim(c.as_str());
            if t.as_str().is_empty() { None } else { Some(t) }
        },
        None => None,
    }
}

/// Reads the folder list from the settings file, one folder per non-empty
/// line; `None` (use the defaults) when the file is missing or lists nothing.
pub fn load_watched_folders(file: Option<String>) -> (r: Option<Vec<String>>)
    ensures
        match file {
            Some(d) => if trimmed_lines_of(d@).len() > 0 {
                r matches Some(v) && views(v@) == trimmed_lines_of(d@)
            } else {
                r is None
            },
            None => r is None,
        },
{
    match &file {
        Some(d) => {
            let folders = trimmed_lines(d.as_str());
            if folders.len() > 0 { Some(folders) } else { None }
        },
        None => None,
    }
}

/// The folder list joined by newlines, as the settings file stores it.
pub open spec fn joined(f: Seq<Seq<char>>) -> Seq<char>
    decreases f.len(),
{
    if f.len() == 0 {
        Seq::empty()
    } else if f.len() == 1 {
        f[0]
    } else {
        joined(f.drop_last()) + "\n"@ + f.last()
    }
}

/// The content written to the folder settings file.
pub fn watched_folders_text(folders: &Vec<String>) -> (t: String)
    ensures
        t@ == joined(views(folders@)),
{
    let mut t = String::new();
    let mut i: usize = 0;
    while i < folders.len()
        invariant
            i <= folders@.len(),
            t@ == joined(views(folders@).subrange(0, i as int)),
        decreases folders@.len() - i,
    {
        let ghost before = t@;
        if i > 0 {
            append(&mut t, "\n");
        }
        append(&mut t, folders[i].as_str());
        proof {
            let v = views(folders@);
            assert(v.subrange(0, i + 1).drop_last() =~= v.subrange(0, i as int));
            assert(v[i as int] == folders@[i as int]@);
            if i == 0 {
                assert(t@ =~= v.subrange(0, 1)[0]);
            } else {
                assert(t@ =~= before + "\n"@ + v[i as int]);
            }
        }
        i = i + 1;
    }
    proof {
        assert(views(folders@).subrange(0, i as int) =~= views(folders@));
    }
    t
}

/// The default folders under a user profile (the caller keeps those that
/// exist); none without a profile.
pub fn default_folder_candidates(home: &str) -> (v: Vec<String>)
    ensures
        home@.len() == 0 ==> v@.len() == 0,
        home@.len() > 0 ==> views(v@) == seq![
            home@ + "\\Documents"@,
            home@ + "\\Desktop"@,
            home@ + "\\Pictures"@,
            home@ + "\\Downloads"@,
        ],
{
    let mut v: Vec<String> = Vec::new();
    if home.is_empty() {
        return v;
    }
    let mut a = owned(home);
    append(&mut a, "\\Documents");
    let mut b = owned(home);
    append(&mut b, "\\Desktop");
    let mut c = owned(home);
    append(&mut c, "\\Pictures");
    let mut d = owned(home);
    append(&mut d, "\\Downloads");
    v.push(a);
    v.push(b);
    v.push(c);
    v.push(d);
    proof {
        assert(views(v@) =~= seq![a@, b@, c@, d@]);
    }
    v
}

/// The `icacls` arguments that lock the data directory to SYSTEM,
/// Administrators and the signed-in user.
pub fn acl_hardening_args(data_dir: &str, username: &str) -> (args: Vec<String>)
    ensures
        username@.len() == 0 ==> views(args@) == seq![
            data_dir@, "/T"@, "/inheritance:r"@, "/grant"@, "SYSTEM:F"@, "/grant"@, "Administrators:F"@,
            "/remove"@, "Users"@, "/remove"@, "Everyone"@,
        ],
        username@.len() > 0 ==> views(args@) == seq![
            data_dir@, "/T"@, "/inheritance:r"@, "/grant"@, "SYSTEM:F"@, "/grant"@, "Administrators:F"@,
            "/grant"@, username@ + ":F"@, "/remove"@, "Users"@, "/remove"@, "Everyone"@,
        ],
{
    let mut args: Vec<String> = Vec::new();
    args.push(owned(data_dir));
    args.push(owned("/T"));
    args.push(owned("/inheritance:r"));
    args.push(owned("/grant"));
    args.push(owned("SYSTEM:F"));
    args.push(owned("/grant"));
    args.push(owned("Administrators:F"));
    if !username.is_empty() {
        args.push(owned("/grant"));
        let mut u = owned(username);
        append(&mut u, ":F");
        args.push(u);
    }
    args.push(owned("/remove"));
    args.push(owned("Users"));
    args.push(owned("/remove"));
    args.push(owned("Everyone"));
    proof {
        if username@.len() == 0 {
            assert(views(args@) =~= seq![
                data_dir@, "/T"@, "/inheritance:r"@, "/grant"@, "SYSTEM:F"@, "/grant"@, "Administrators:F"@,
                "/remove"@, "Users"@, "/remove"@, "Everyone"@,
            ]);
        } else {
            assert(views(args@) =~= seq![
                data_dir@, "/T"@, "/inheritance:r"@, "/grant"@, "SYSTEM:F"@, "/grant"@, "Administrators:F"@,
                "/grant"@, username@ + ":F"@, "/remove"@, "Users"@, "/remove"@, "Everyone"@,
            ]);
        }
    }
    args
}

/// One line of the access-rule failure log.
pub fn acl_failure_entry(timestamp: &str, msg: &str) -> (e: String)
    ensures
        e@ == timestamp@ + "|ACL_FAILURE|"@ + msg@ + "\n"@,
{
    let mut e = owned(timestamp);
    append(&mut e, "|ACL_FAILURE|");
    append(&mut e, msg);
    append(&mut e, "\n");
    e
}

} // verus!
