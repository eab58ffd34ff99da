//! The D-Bus names of the QuickPeek service and the rules that read the
//! bus daemon's replies.

use vstd::prelude::*;
use crate::text::{decimal, decimal_string, is_absolute_path, is_absolute_str, path_join, path_join_str};

verus! {

/// Well-known bus name of the preview daemon.
pub const BUS_NAME: &'static str = "org.quickpeek.QuickPeek";

/// Object path at which the daemon exports its interface.
pub const OBJECT_PATH: &'static str = "/org/quickpeek/QuickPeek";

/// Name of the daemon's interface.
pub const INTERFACE_NAME: &'static str = "org.quickpeek.QuickPeek";

/// Introspection data of the daemon's interface.
pub const INTROSPECTION_XML: &'static str = r#"<node>
  <interface name="org.quickpeek.QuickPeek">
    <method name="ShowFile">
      <arg name="path" type="s" direction="in"/>
      <arg name="ok" type="b" direction="out"/>
      <arg name="message" type="s" direction="out"/>
    </method>
    <method name="Toggle">
      <arg name="ok" type="b" direction="out"/>
      <arg name="message" type="s" direction="out"/>
    </method>
    <method name="Quit"/>
  </interface>
</node>"#;

/// `RequestName` flag: fail rather than wait in the queue for the name.
pub const DO_NOT_QUEUE: u32 = 4;

/// `RequestName` reply: the caller is now the primary owner.
pub const PRIMARY_OWNER: u32 = 1;

/// `RequestName` reply: the name has another owner and the caller was not queued.
pub const EXISTS: u32 = 3;

/// Which part a process plays once it has asked for the bus name.
#[derive(Debug, Clone, Copy, PartialEq, Eq, Structural)]
pub enum Role {
    /// The process owns the name and serves previews.
    Daemon,
    /// Another process owns the name; this one forwards its request.
    Client,
}

/// The message for a `RequestName` reply that is neither of the two expected.
pub open spec fn unexpected_reply_message(reply: u32) -> Seq<char> {
    "Unexpected RequestName reply: "@ + decimal(reply as nat)
}

/// Maps the bus daemon's reply to `RequestName` (asked with `DO_NOT_QUEUE`)
/// to the role of this process.
pub fn map_request_name_reply(reply: u32) -> (r: Result<Role, String>)
    ensures
        reply == PRIMARY_OWNER ==> r == Ok::<Role, String>(Role::Daemon),
        reply == EXISTS ==> r == Ok::<Role, String>(Role::Client),
        reply != PRIMARY_OWNER && reply != EXISTS ==> (r matches Err(e)
            && e@ == unexpected_reply_message(reply)),
{
    if reply == PRIMARY_OWNER {
        Ok(Role::Daemon)
    } else if reply == EXISTS {
        Ok(Role::Client)
    } else {
        let mut msg = String::from_str("Unexpected RequestName reply: ");
        let digits = decimal_string(reply as u64);
        msg.append(digits.as_str());
        Err(msg)
    }
}

/// `path` made absolute against `current_dir`: an absolute path is kept,
/// a relative one is joined onto `current_dir`.
pub fn absolutize_path(path: &str, current_dir: &str) -> (r: String)
    ensures
        is_absolute_path(path@) ==> r@ == path@,
        !is_absolute_path(path@) ==> r@ == path_join(current_dir@, path@),
        r@ == path_join(current_dir@, path@),
{
    if is_absolute_str(path) {
        String::from_str(path)
    } else {
        path_join_str(current_dir, path)
    }
}

} // verus!
