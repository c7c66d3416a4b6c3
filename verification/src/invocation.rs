//! Argument vectors for the two external tools: the identity CLI login and
//! the per-file sign invocation.
//!
//! The sign arguments are built once per run as a template — verbose flag,
//! digest algorithm, timestamp server, timestamp digest, library path and
//! metadata path, with an optional trailing description pair — and each
//! invocation appends exactly one file to an unchanged copy of it.

use vstd::prelude::*;

verus! {

use vstd::string::StringExecFns;

/// The argument vector of a service-principal login against the identity
/// CLI.
pub open spec fn spec_login_args(tenant: Seq<char>, client: Seq<char>, secret: Seq<char>) -> Seq<
    Seq<char>,
> {
    seq!["login"@, "--service-principal"@, "-t"@, tenant, "-u"@, client, "-p"@, secret]
}

/// Builds the login argument vector for the identity CLI.
pub fn login_args(tenant: &str, client_id: &str, client_secret: &str) -> (r: Vec<String>)
    ensures
        r.deep_view() == spec_login_args(tenant@, client_id@, client_secret@),
{
    let mut v: Vec<String> = Vec::new();
    v.push("login".to_owned());
    v.push("--service-principal".to_owned());
    v.push("-t".to_owned());
    v.push(tenant.to_owned());
    v.push("-u".to_owned());
    v.push(client_id.to_owned());
    v.push("-p".to_owned());
    v.push(client_secret.to_owned());
    proof {
        assert(v.deep_view() =~~= spec_login_args(tenant@, client_id@, client_secret@));
    }
    v
}

/// The fixed portion of the sign invocation: subcommand, verbose flag and
/// the five flag pairs every invocation carries.
pub open spec fn spec_fixed_template(
    fd: Seq<char>,
    tr: Seq<char>,
    td: Seq<char>,
    lib_path: Seq<char>,
    metadata_path: Seq<char>,
) -> Seq<Seq<char>> {
    seq![
        "sign"@,
        "/v"@,
        "/fd"@,
        fd,
        "/tr"@,
        tr,
        "/td"@,
        td,
        "/dlib"@,
        lib_path,
        "/dmdf"@,
        metadata_path,
    ]
}

/// The sign invocation template: the fixed portion, and — only when a
/// description was supplied — the description flag pair after it.
pub open spec fn spec_sign_template(
    fd: Seq<char>,
    tr: Seq<char>,
    td: Seq<char>,
    lib_path: Seq<char>,
    metadata_path: Seq<char>,
    description: Option<Seq<char>>,
) -> Seq<Seq<char>> {
    let fixed = spec_fixed_template(fd, tr, td, lib_path, metadata_path);
    match description {
        None => fixed,
        Some(d) => fixed + seq!["/d"@, d],
    }
}

/// A template with no description is exactly the fixed flag sequence; a
/// description changes none of the fixed flags and appends exactly the
/// description pair after all of them.
pub proof fn lemma_template_description(
    fd: Seq<char>,
    tr: Seq<char>,
    td: Seq<char>,
    lib_path: Seq<char>,
    metadata_path: Seq<char>,
    d: Seq<char>,
)
    ensures
        spec_sign_template(fd, tr, td, lib_path, metadata_path, None) == spec_fixed_template(
            fd,
            tr,
            td,
            lib_path,
            metadata_path,
        ),
        spec_sign_template(fd, tr, td, lib_path, metadata_path, None).len() == 12,
        spec_sign_template(fd, tr, td, lib_path, metadata_path, Some(d)) == spec_sign_template(
            fd,
            tr,
            td,
            lib_path,
            metadata_path,
            None,
        ) + seq!["/d"@, d],
        spec_sign_template(fd, tr, td, lib_path, metadata_path, Some(d)).len() == 14,
        spec_sign_template(fd, tr, td, lib_path, metadata_path, Some(d))[12] == "/d"@,
        spec_sign_template(fd, tr, td, lib_path, metadata_path, Some(d))[13] == d,
        // None of the flag positions of the description-free template holds
        // the description flag.
        ({
            let t = spec_sign_template(fd, tr, td, lib_path, metadata_path, None);
            t[0] != "/d"@ && t[1] != "/d"@ && t[2] != "/d"@ && t[4] != "/d"@ && t[6] != "/d"@
                && t[8] != "/d"@ && t[10] != "/d"@
        }),
{
    reveal_strlit("sign");
    reveal_strlit("/v");
    reveal_strlit("/fd");
    reveal_strlit("/tr");
    reveal_strlit("/td");
    reveal_strlit("/dlib");
    reveal_strlit("/dmdf");
    reveal_strlit("/d");
    let t = spec_sign_template(fd, tr, td, lib_path, metadata_path, None);
    assert(t[0] == "sign"@ && t[1] == "/v"@ && t[2] == "/fd"@ && t[4] == "/tr"@ && t[6] == "/td"@
        && t[8] == "/dlib"@ && t[10] == "/dmdf"@);
    assert("sign"@.len() == 4 && "/d"@.len() == 2);
    assert("/v"@[1] == 'v' && "/d"@[1] == 'd');
    assert("/fd"@.len() == 3 && "/tr"@.len() == 3 && "/td"@.len() == 3);
    assert("/dlib"@.len() == 5 && "/dmdf"@.len() == 5);
}

/// Builds the sign invocation template.
pub fn sign_template(
    fd: &str,
    tr: &str,
    td: &str,
    lib_path: &str,
    metadata_path: &str,
    description: &Option<String>,
) -> (r: Vec<String>)
    ensures
        r.deep_view() == spec_sign_template(
            fd@,
            tr@,
            td@,
            lib_path@,
            metadata_path@,
            description.deep_view(),
        ),
{
    let mut v: Vec<String> = Vec::new();
    v.push("sign".to_owned());
    v.push("/v".to_owned());
    v.push("/fd".to_owned());
    v.push(fd.to_owned());
    v.push("/tr".to_owned());
    v.push(tr.to_owned());
    v.push("/td".to_owned());
    v.push(td.to_owned());
    v.push("/dlib".to_owned());
    v.push(lib_path.to_owned());
    v.push("/dmdf".to_owned());
    v.push(metadata_path.to_owned());
    match description {
        Some(d) => {
            v.push("/d".to_owned());
            v.push(d.clone());
        },
        None => {},
    }
    proof {
        assert(v.deep_view() =~~= spec_sign_template(
            fd@,
            tr@,
            td@,
            lib_path@,
            metadata_path@,
            description.deep_view(),
        ));
    }
    v
}

/// One full sign invocation: the template followed by exactly one file.
pub open spec fn spec_sign_args(template: Seq<Seq<char>>, file: Seq<char>) -> Seq<Seq<char>> {
    template + seq![file]
}

/// Appends the one target file to a copy of the template.
pub fn sign_args(template: &Vec<String>, file: &String) -> (r: Vec<String>)
    ensures
        r.deep_view() == spec_sign_args(template.deep_view(), file@),
{
    let mut v: Vec<String> = Vec::new();
    let mut i: usize = 0;
    while i < template.len()
        invariant
            i <= template@.len(),
            v@.len() == i,
            forall|j: int| 0 <= j < i ==> v@[j] == template@[j],
        decreases template@.len() - i,
    {
        v.push(template[i].clone());
        i += 1;
    }
    v.push(file.clone());
    proof {
        assert(v.deep_view() =~= spec_sign_args(template.deep_view(), file@));
    }
    v
}

} // verus!
