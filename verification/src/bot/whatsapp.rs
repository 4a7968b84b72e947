//! The WhatsApp bot, of which the gateway knows the name and the credentials.

use vstd::prelude::*;

verus! {

#[derive(Debug, PartialEq)]
pub struct WhatsappAuth {
    pub phone_id: String,
    pub account_id: String,
}

#[derive(Debug, PartialEq)]
pub struct WhatsApp {
    pub token: String,
}

impl Clone for WhatsappAuth {
    fn clone(&self) -> (r: Self)
        ensures
            r == *self,
    {
        WhatsappAuth { phone_id: self.phone_id.clone(), account_id: self.account_id.clone() }
    }
}

impl Default for WhatsappAuth {
    fn default() -> (r: Self)
        ensures
            r.phone_id@ == Seq::<char>::empty(),
            r.account_id@ == Seq::<char>::empty(),
    {
        WhatsappAuth { phone_id: String::new(), account_id: String::new() }
    }
}

impl Clone for WhatsApp {
    fn clone(&self) -> (r: Self)
        ensures
            r == *self,
    {
        WhatsApp { token: self.token.clone() }
    }
}

impl WhatsApp {
    /// The name of the platform.
    pub fn get_bot_name(&self) -> (name: String)
        ensures
            name@ == "whatsapp"@,
    {
        "whatsapp".to_owned()
    }
}

} // verus!
