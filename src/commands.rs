use vstd::prelude::*;
use vstd::string::StringExecFns;

use crate::buttons::Command;

verus! {

/// The endpoint of the remote service that carries out a command.
pub open spec fn command_endpoint(c: Command) -> Seq<char> {
    match c {
        Command::TogglePlayback => "toggle_playback"@,
        Command::SkipNext => "next_track"@,
        Command::SkipPrevious => "previous_track"@,
    }
}

impl Command {
    /// The endpoint of the remote service that carries out this command.
    pub fn endpoint(&self) -> (s: &'static str)
        ensures
            s@ == command_endpoint(*self),
    {
        match self {
            Command::TogglePlayback => "toggle_playback",
            Command::SkipNext => "next_track",
            Command::SkipPrevious => "previous_track",
        }
    }
}

/// The address that issues `cmd`, with the token as a query parameter.
pub fn command_url(api_url_root: &str, cmd: Command, auth_token: &str) -> (url: String)
    ensures
        url@ == api_url_root@ + "/"@ + command_endpoint(cmd) + "?auth_token="@ + auth_token@,
{
    let mut url = String::from_str(api_url_root);
    url.append("/");
    url.append(cmd.endpoint());
    url.append("?auth_token=");
    url.append(auth_token);
    url
}

/// The address from which the current playback state is fetched.
pub fn current_playback_url(api_url_root: &str) -> (url: String)
    ensures
        url@ == api_url_root@ + "/current_playback"@,
{
    let mut url = String::from_str(api_url_root);
    url.append("/current_playback");
    url
}

/// HTTP status that marks a command as carried out.
pub const STATUS_OK: u16 = 200;

/// Whether a command's response status means success: exactly 200.
pub fn command_succeeded(status: u16) -> (ok: bool)
    ensures
        ok == (status == STATUS_OK),
{
    status == STATUS_OK
}

} // verus!
