//! The content of the bridge state event that `bridge-id` sets.

use crate::campaign::arg_at;
use crate::message::{markdown_notice, opt_text, plain, Message, MessageKind};
use crate::text::texts;
use vstd::prelude::*;

verus! {

/// The state key under which the bridge content is set.
pub const FAKE_BRIDGE_KEY: &'static str = "de.spiritcroc.wipbot";

/// The protocol that a bridge claims to connect.
#[derive(Debug, PartialEq)]
pub struct BridgeProtocol {
    pub id: String,
    pub displayname: String,
}

/// A bridge protocol as text.
pub struct BridgeProtocolView {
    pub id: Seq<char>,
    pub displayname: Seq<char>,
}

impl View for BridgeProtocol {
    type V = BridgeProtocolView;

    open spec fn view(&self) -> BridgeProtocolView {
        BridgeProtocolView { id: self.id@, displayname: self.displayname@ }
    }
}

impl Clone for BridgeProtocol {
    fn clone(&self) -> (r: Self)
        ensures
            r@ == self@,
    {
        BridgeProtocol { id: self.id.clone(), displayname: self.displayname.clone() }
    }
}

/// The content of a bridge state event.
#[derive(Debug)]
pub struct BridgeStateContent {
    pub bridgebot: Option<String>,
    pub creator: Option<String>,
    pub protocol: Option<BridgeProtocol>,
}

/// A bridge state content as text.
pub struct BridgeStateView {
    pub bridgebot: Option<Seq<char>>,
    pub creator: Option<Seq<char>>,
    pub protocol: Option<BridgeProtocolView>,
}

impl View for BridgeStateContent {
    type V = BridgeStateView;

    open spec fn view(&self) -> BridgeStateView {
        BridgeStateView {
            bridgebot: opt_text(self.bridgebot),
            creator: opt_text(self.creator),
            protocol: match self.protocol {
                Some(p) => Some(p@),
                None => None,
            },
        }
    }
}

impl Clone for BridgeStateContent {
    fn clone(&self) -> (r: Self)
        ensures
            r@ == self@,
    {
        BridgeStateContent {
            bridgebot: match &self.bridgebot {
                Some(s) => Some(s.clone()),
                None => None,
            },
            creator: match &self.creator {
                Some(s) => Some(s.clone()),
                None => None,
            },
            protocol: match &self.protocol {
                Some(p) => Some(p.clone()),
                None => None,
            },
        }
    }
}

/// The bridge content for `bridge-id [id]`: the bot is bridge bot and
/// creator, and the first argument, where there is one, is both the
/// protocol's id and its display name. Without an argument the content
/// names no protocol, which clears it.
pub open spec fn bridge_content(args: Seq<Seq<char>>, own_id: Seq<char>) -> BridgeStateView {
    BridgeStateView {
        bridgebot: Some(own_id),
        creator: Some(own_id),
        protocol: if args.len() > 0 {
            Some(BridgeProtocolView { id: arg_at(args, 0), displayname: arg_at(args, 0) })
        } else {
            None
        },
    }
}

/// Plans `bridge-id [id]`.
pub fn handle_bride_id(args: &Vec<String>, own_id: &str) -> (r: BridgeStateContent)
    ensures
        r@ == bridge_content(texts(args@), own_id@),
{
    BridgeStateContent {
        bridgebot: Some(String::from_str(own_id)),
        creator: Some(String::from_str(own_id)),
        protocol: if args.len() > 0 {
            Some(BridgeProtocol { id: args[0].clone(), displayname: args[0].clone() })
        } else {
            None
        },
    }
}

/// What to say after the state event was sent, or could not be.
pub fn bridge_outcome_message(updated: bool) -> (m: Message)
    ensures
        m@ == if updated {
            markdown_notice("Bridge content updated"@)
        } else {
            plain(MessageKind::Text, "Failed to set bridge-id"@)
        },
{
    if updated {
        Message::notice_markdown(String::from_str("Bridge content updated"))
    } else {
        Message::text_plain(String::from_str("Failed to set bridge-id"))
    }
}

} // verus!
