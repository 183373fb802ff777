//! The operator CLI input handler.
//!
//! One line of local input becomes one signed command: the first word
//! (case-folded) names the command; for the scripting command the whole
//! remainder of the line, inner whitespace preserved, is the single
//! argument, while any other line is split into whitespace-separated
//! words. The word list is encoded, signed with the operator's private
//! key, checked once against the embedded public key, and handed back
//! serialized for publication on the swarm's topic. A node without the
//! private key has nothing to sign with and ignores its input.

use vstd::prelude::*;

use crate::codec::{command_encoding, encode_command, payload_encoding};
use crate::commands::CommandHandler;
use crate::crypto::{
    signature_of, signature_ok, valid_operator_keypair, DILITHIUM_PUBLIC_KEY_LEN,
    DILITHIUM_SECRET_KEY_LEN,
};
use crate::payload::Payload;
use crate::text::{
    first_space, lower_of, lowercase, split_first_space, tokenize, whitespace_tokens,
};

verus! {

/// Everything on the line after its first space, or nothing if the line
/// holds no space.
pub open spec fn line_remainder(line: Seq<char>) -> Seq<char> {
    if first_space(line, 0) < line.len() {
        line.subrange(first_space(line, 0) + 1, line.len() as int)
    } else {
        Seq::<char>::empty()
    }
}

/// The case-folded first word of the line: what names the command.
pub open spec fn lowered_first_word(line: Seq<char>) -> Seq<char> {
    lower_of(line.subrange(0, first_space(line, 0)))
}

/// The command word list an input line denotes: for the scripting command
/// the remainder of the line stays one argument; any other line is split
/// on whitespace into independent words.
pub open spec fn command_for_line(line: Seq<char>) -> Seq<Seq<char>> {
    if lowered_first_word(line) == "lua"@ {
        seq!["lua"@, line_remainder(line)]
    } else {
        whitespace_tokens(line)
    }
}

/// What handling one input line came to.
pub enum CliOutcome {
    /// This node holds no operator private key; input cannot be signed.
    NoKey,
    /// The line was empty; warned and ignored.
    EmptyLine,
    /// The command name is not registered; warned and ignored.
    Unrecognized,
    /// The freshly signed payload failed its verification self-check; not
    /// published.
    SelfCheckFailed,
    /// The serialized signed payload, ready to publish on the topic.
    Publish(Vec<u8>),
}

/// The operator's side of the command channel: the private key (held only
/// on operator nodes), the embedded public key it must match, and the
/// topic commands are published on.
pub struct CLI {
    dilithium_private_key: Option<Vec<u8>>,
    operator_public_key: Vec<u8>,
    gossipsub_topic: String,
}

impl CLI {
    /// The handler's keys have the exact Dilithium lengths.
    pub open spec fn wf(&self) -> bool {
        &&& self.spec_public_key().len() == DILITHIUM_PUBLIC_KEY_LEN
        &&& (self.spec_private_key() matches Some(k) ==> k.len() == DILITHIUM_SECRET_KEY_LEN)
    }

    /// The private key, if this node holds one.
    pub closed spec fn spec_private_key(&self) -> Option<Seq<u8>> {
        match self.dilithium_private_key {
            Some(k) => Some(k@),
            None => None,
        }
    }

    /// The embedded operator public key.
    pub closed spec fn spec_public_key(&self) -> Seq<u8> {
        self.operator_public_key@
    }

    /// The topic commands are published on.
    pub closed spec fn spec_topic(&self) -> Seq<char> {
        self.gossipsub_topic@
    }

    pub fn new(
        dilithium_private_key: Option<Vec<u8>>,
        operator_public_key: Vec<u8>,
        gossipsub_topic: String,
    ) -> (r: CLI)
        requires
            operator_public_key@.len() == DILITHIUM_PUBLIC_KEY_LEN,
            dilithium_private_key matches Some(k) ==> k@.len() == DILITHIUM_SECRET_KEY_LEN,
        ensures
            r.wf(),
            r.spec_private_key() == match dilithium_private_key {
                Some(k) => Some(k@),
                None => None::<Seq<u8>>,
            },
            r.spec_public_key() == operator_public_key@,
            r.spec_topic() == gossipsub_topic@,
    {
        CLI { dilithium_private_key, operator_public_key, gossipsub_topic }
    }

    /// The topic to publish on.
    pub fn topic(&self) -> (r: &String)
        ensures
            r@ == self.spec_topic(),
    {
        &self.gossipsub_topic
    }

    /// Handle one line of operator input, as described at the module head.
    /// With a registered name and a private key matching the embedded
    /// public key, the line is always published; the serialized payload
    /// carries the operator's signature over the encoded word list.
    pub fn handle_input(&self, command_handler: &CommandHandler, buffer: &String) -> (r: CliOutcome)
        requires
            self.wf(),
        ensures
            r is NoKey <==> self.spec_private_key() is None,
            self.spec_private_key() is Some ==> ((r is EmptyLine) <==> buffer@.len() == 0),
            self.spec_private_key() is Some && buffer@.len() > 0 ==> ((r is Unrecognized)
                <==> !command_handler.registered(lowered_first_word(buffer@))),
            ({
                let key = self.spec_private_key();
                let words = command_for_line(buffer@);
                let encoded = command_encoding(words);
                &&& (r is Publish <==> (key matches Some(k) && buffer@.len() > 0
                    && command_handler.registered(lowered_first_word(buffer@)) && signature_ok(
                    self.spec_public_key(),
                    encoded,
                    signature_of(k, encoded),
                )))
                &&& (r matches CliOutcome::Publish(bytes) ==> (key matches Some(k) && bytes@
                    == payload_encoding(signature_of(k, encoded), encoded)))
                &&& (key matches Some(k) && buffer@.len() > 0 && command_handler.registered(
                    lowered_first_word(buffer@),
                ) && valid_operator_keypair(self.spec_public_key(), k) ==> r is Publish)
            }),
    {
        let key = match &self.dilithium_private_key {
            None => {
                return CliOutcome::NoKey;
            },
            Some(k) => k,
        };
        if buffer.as_str().is_empty() {
            return CliOutcome::EmptyLine;
        }
        let (head, rest) = split_first_space(buffer);
        let name = lowercase(&head);
        if !command_handler.command_exists(&name) {
            return CliOutcome::Unrecognized;
        }
        let lua_name = String::from_str("lua");
        let command: Vec<String> = if name.eq(&lua_name) {
            let remainder = match rest {
                Some(text) => text,
                None => String::new(),
            };
            let mut words: Vec<String> = Vec::new();
            words.push(lua_name);
            words.push(remainder);
            proof {
                assert(words.deep_view()[1] == line_remainder(buffer@));
                assert(words.deep_view() =~= command_for_line(buffer@));
            }
            words
        } else {
            let words = tokenize(buffer);
            proof {
                assert(words.deep_view() == command_for_line(buffer@));
            }
            words
        };
        let encoded = encode_command(&command);
        let payload = Payload::new(key, &encoded);
        if payload.verify(&self.operator_public_key) {
            CliOutcome::Publish(payload.to_vec())
        } else {
            CliOutcome::SelfCheckFailed
        }
    }
}

} // verus!
