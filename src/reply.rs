use vstd::prelude::*;
use crate::decimal::{decimal, push_decimal};
use crate::quote::{sh_quote, shell_word};

verus! {

/// The staging file of an upload to `name`: hidden, and marked as partial.
pub open spec fn staging_of(name: Seq<char>) -> Seq<char> {
    seq!['.'] + name + ".part"@
}

/// The path under which the static server serves the file `name`.
pub open spec fn location_of(name: Seq<char>) -> Seq<char> {
    "/files/"@ + name
}

/// The shell command that downloads `name` from the server at `base`.
pub open spec fn fetch_command_of(base: Seq<char>, name: Seq<char>) -> Seq<char> {
    "wget "@ + shell_word(base + location_of(name))
}

/// The plain-text body of a successful upload of `written` bytes.
pub open spec fn created_body_of(base: Seq<char>, name: Seq<char>, written: nat) -> Seq<char> {
    "Upload OK\nwget: "@ + fetch_command_of(base, name) + "\nsize: "@ + decimal(written)
        + " bytes\n"@
}

/// The name of the staging file for an upload to `name`.
pub fn staging_name(name: &str) -> (r: String)
    ensures
        r@ == staging_of(name@),
{
    let mut out = String::from_str(".");
    proof {
        reveal_strlit(".");
    }
    out.append(name);
    out.append(".part");
    out
}

/// The path, relative to the server, at which the file `name` is served.
pub fn location_path(name: &str) -> (r: String)
    ensures
        r@ == location_of(name@),
{
    String::from_str("/files/").concat(name)
}

/// A ready-to-paste command that fetches `name` from the server at `base`;
/// the address is quoted for the shell.
pub fn fetch_command(base: &str, name: &str) -> (r: String)
    ensures
        r@ == fetch_command_of(base@, name@),
{
    let path = location_path(name);
    let url = String::from_str(base).concat(path.as_str());
    let quoted = sh_quote(url.as_str());
    String::from_str("wget ").concat(quoted.as_str())
}

/// The reply text of a successful upload of `written` bytes to `name`.
pub fn created_body(base: &str, name: &str, written: u64) -> (r: String)
    ensures
        r@ == created_body_of(base@, name@, written as nat),
{
    let mut out = String::from_str("Upload OK\nwget: ");
    let cmd = fetch_command(base, name);
    out.append(cmd.as_str());
    out.append("\nsize: ");
    push_decimal(&mut out, written);
    out.append(" bytes\n");
    out
}

} // verus!
