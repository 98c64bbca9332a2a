//! Built-in scripts' decisions.

use vstd::prelude::*;
use crate::events::{CharacterIdentity, SimpleClientAction, SimpleGameEvent};

verus! {

/// Logs in with the first character of the first character list it sees.
#[derive(Clone, Copy, Debug, PartialEq, Eq, Structural)]
pub struct AutoLoginScript {
    pub handled: bool,
}

impl AutoLoginScript {
    pub fn new() -> (r: AutoLoginScript)
        ensures
            !r.handled,
    {
        AutoLoginScript { handled: false }
    }

    /// The action the script takes on `event`: on the first character list
    /// only, a login with its first character, if there is one.
    pub fn on_event(&mut self, event: &SimpleGameEvent) -> (r: Option<SimpleClientAction>)
        ensures
            match event {
                SimpleGameEvent::CharacterListReceived { account, characters, .. } => {
                    &&& final(self).handled
                    &&& if old(self).handled || characters@.len() == 0 {
                            r is None
                        } else {
                            r == Some(SimpleClientAction::LoginCharacter {
                                character_id: characters@[0].character_id,
                                character_name: characters@[0].name,
                                account: *account,
                            })
                        }
                },
                _ => r is None && *final(self) == *old(self),
            },
    {
        match event {
            SimpleGameEvent::CharacterListReceived { account, characters, .. } => {
                if self.handled {
                    return None;
                }
                self.handled = true;
                if characters.len() == 0 {
                    return None;
                }
                let first: &CharacterIdentity = &characters[0];
                Some(SimpleClientAction::LoginCharacter {
                    character_id: first.character_id,
                    character_name: first.name.clone(),
                    account: account.clone(),
                })
            },
            _ => None,
        }
    }
}

} // verus!
