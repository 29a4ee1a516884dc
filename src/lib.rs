//! Verified core of a chat-platform interactions bot: request signature
//! checks, interaction dispatch, command definitions and the rendering of
//! looked-up records.

pub mod discord;
pub mod dispatch;
pub mod hex;
pub mod pokemon;
pub mod signature;
pub mod text;

use vstd::prelude::*;

verus! {

pub use crate::text::decimal;
use crate::text::push_decimal;

/// Errors of the clients that talk to remote REST APIs.
#[derive(Clone, Debug)]
pub enum Error {
    /// The remote call itself failed.
    API(String),
    /// A request could not be built.
    Internal(String),
    /// A body could not be encoded or decoded.
    Decode(String),
    /// The remote answered with a status outside the 2xx range.
    Upstream(u16, String),
}

impl Error {
    /// What went wrong, without the kind of error in front.
    pub fn detail(&self) -> (r: String)
        ensures
            r@ == error_detail(*self),
    {
        match self {
            Error::API(s) => s.clone(),
            Error::Internal(s) => s.clone(),
            Error::Decode(s) => s.clone(),
            Error::Upstream(status, body) => {
                let mut r = String::from_str("get http error: ");
                push_decimal(&mut r, *status as u64);
                r.append(" ");
                r.append(body.as_str());
                r
            },
        }
    }

    /// A human readable description of the error: its kind, then its detail.
    pub fn message(&self) -> (r: String)
        ensures
            r@ == error_message(*self),
    {
        let mut r = match self {
            Error::API(_) => String::from_str("api error: "),
            Error::Internal(_) => String::from_str("internal error: "),
            Error::Decode(_) => String::from_str("decode error: "),
            Error::Upstream(_, _) => String::from_str("api error: "),
        };
        let detail = self.detail();
        r.append(detail.as_str());
        r
    }
}

/// The text that `Error::detail` gives for each error.
pub open spec fn error_detail(e: Error) -> Seq<char> {
    match e {
        Error::API(s) => s@,
        Error::Internal(s) => s@,
        Error::Decode(s) => s@,
        Error::Upstream(status, body) => "get http error: "@ + decimal(status as nat) + " "@ + body@,
    }
}

/// The text that `Error::message` gives for each error.
pub open spec fn error_message(e: Error) -> Seq<char> {
    match e {
        Error::API(_) | Error::Upstream(_, _) => "api error: "@ + error_detail(e),
        Error::Internal(_) => "internal error: "@ + error_detail(e),
        Error::Decode(_) => "decode error: "@ + error_detail(e),
    }
}

/// Whether an HTTP status code reports success.
pub open spec fn is_success(status: u16) -> bool {
    200 <= status <= 299
}

/// Maps the status and body of a remote answer to success, or to
/// `Error::Upstream` when the status is not in the 2xx range.
pub fn check_status(status: u16, body: String) -> (r: Result<(), Error>)
    ensures
        is_success(status) ==> r is Ok,
        !is_success(status) ==> r is Err && r->Err_0 is Upstream && r->Err_0->Upstream_0 == status
            && r->Err_0->Upstream_1@ == body@,
{
    if 200 <= status && status <= 299 {
        Ok(())
    } else {
        Err(Error::Upstream(status, body))
    }
}

/// The default address of the chat platform's REST API.
pub const DISCORD_API: &'static str = "https://discord.com/api";

/// What is needed to manage the bot's commands on one guild.
#[derive(Clone, Debug)]
pub struct Interactions {
    guild_id: String,
    application_id: String,
    bot_token: String,
}

impl Interactions {
    /// The guild whose commands are managed.
    pub closed spec fn guild(&self) -> Seq<char> {
        self.guild_id@
    }

    /// The application that owns the commands.
    pub closed spec fn application(&self) -> Seq<char> {
        self.application_id@
    }

    /// The bot's token.
    pub closed spec fn token(&self) -> Seq<char> {
        self.bot_token@
    }

    /// Commands of `application_id` on the guild `guild_id`, managed with
    /// the bot token `bot_token`.
    pub fn new(guild_id: &str, application_id: &str, bot_token: &str) -> (r: Self)
        ensures
            r.guild() == guild_id@,
            r.application() == application_id@,
            r.token() == bot_token@,
    {
        Interactions {
            guild_id: String::from_str(guild_id),
            application_id: String::from_str(application_id),
            bot_token: String::from_str(bot_token),
        }
    }

    /// The endpoint that lists and registers the guild's commands.
    pub fn commands_url(&self) -> (r: String)
        ensures
            r@ == DISCORD_API@ + "/applications/"@ + self.application() + "/guilds/"@
                + self.guild() + "/commands"@,
    {
        let mut r = String::from_str(DISCORD_API);
        r.append("/applications/");
        r.append(self.application_id.as_str());
        r.append("/guilds/");
        r.append(self.guild_id.as_str());
        r.append("/commands");
        r
    }

    /// The value of the `Authorization` header: `Bot ` and the token.
    pub fn authorization(&self) -> (r: String)
        ensures
            r@ == "Bot "@ + self.token(),
    {
        let mut r = String::from_str("Bot ");
        r.append(self.bot_token.as_str());
        r
    }
}

} // verus!
