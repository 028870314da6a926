//! The Slack side: getting a token, starting the Slack client, and passing on
//! what is said at Slack.

use crate::account::{with_token, HubInfo, HubInfoView, StoredInfo};
use crate::channel::ChannelView;
use crate::hub;
use crate::hub::{
    send_result, ChannelHandle, ChannelSender, EventView, Message as HubMessage, MessageView,
};
use crate::settings::{Settings, SettingsView};
use crate::text::{join, same, views};
use vstd::prelude::*;

verus! {

/// Why the Slack client cannot be used. The texts say what Slack, or the way
/// to it, had to say.
#[derive(Debug)]
pub enum Error {
    /// The hub has no token.
    NoToken,
    /// Slack does not know the code.
    InvalidCode,
    /// There is no way to reach Slack.
    SlackApiError(String),
    /// Slack did not give a token.
    SlackAccessError(String),
    /// Slack did not let the client in.
    SlackError(String),
    /// The client is running already.
    AlreadyStarted,
}

/// How an error is reported.
pub open spec fn error_text(e: Error) -> Seq<char> {
    match e {
        Error::NoToken => "NoToken"@,
        Error::InvalidCode => "InvalidCode"@,
        Error::SlackApiError(text) => "SlackApiError("@ + text@ + ")"@,
        Error::SlackAccessError(text) => "SlackAccessError("@ + text@ + ")"@,
        Error::SlackError(text) => "SlackError("@ + text@ + ")"@,
        Error::AlreadyStarted => "AlreadyStarted"@,
    }
}

impl Error {
    /// The text of a report.
    pub fn describe(&self) -> (res: String)
        ensures
            res@ == error_text(*self),
    {
        match self {
            Error::NoToken => "NoToken".to_string(),
            Error::InvalidCode => "InvalidCode".to_string(),
            Error::SlackApiError(text) => join(join("SlackApiError(", text).as_str(), ")"),
            Error::SlackAccessError(text) => join(join("SlackAccessError(", text).as_str(), ")"),
            Error::SlackError(text) => join(join("SlackError(", text).as_str(), ")"),
            Error::AlreadyStarted => "AlreadyStarted".to_string(),
        }
    }
}

/// What Slack is asked for a token with.
#[derive(Debug)]
pub struct AccessRequest {
    pub client_id: String,
    pub client_secret: String,
    pub code: String,
}

pub struct AccessRequestView {
    pub client_id: Seq<char>,
    pub client_secret: Seq<char>,
    pub code: Seq<char>,
}

impl View for AccessRequest {
    type V = AccessRequestView;

    open spec fn view(&self) -> AccessRequestView {
        AccessRequestView {
            client_id: self.client_id@,
            client_secret: self.client_secret@,
            code: self.code@,
        }
    }
}

/// What came of asking Slack for a token.
#[derive(Debug)]
pub enum AccessReply {
    /// Slack was not asked, and why.
    NoClient(String),
    /// Slack does not know the code.
    InvalidCode,
    /// Slack gave another reason.
    Refused(String),
    /// Slack agreed. It is expected to hand over a token.
    Granted(Option<String>),
}

/// Something that happened at Slack.
#[derive(Debug)]
pub enum SlackEvent {
    Connect,
    Close,
    Event(SlackMessage),
}

#[derive(Debug)]
pub enum SlackMessage {
    /// Somebody wrote something.
    Standard { channel: Option<String>, text: Option<String>, user: Option<String> },
    /// Anything else.
    Other,
}

/// What reaches the gateway.
#[derive(Debug)]
pub enum Input {
    Hub(hub::Event),
    Slack(SlackEvent),
    /// The answer to a code, which was handed over by this channel.
    Registered(ChannelHandle, AccessReply),
    /// A new token was stored.
    Saved(String),
    /// How logging in with a new token went; it may have failed for a reason.
    LoggedIn(Result<(), String>),
}

/// What is to be done for the gateway. What comes of it is its next input.
#[derive(Debug)]
pub enum Action {
    /// Ask Slack for a token.
    Register(Registration),
    /// Store what is known about the hub, which has this new token.
    Save(String),
    /// Log in to Slack with this token.
    LogIn(String),
}

/// A user's wish to use a code: who to answer, and what to ask Slack.
#[derive(Debug)]
pub struct Registration {
    pub from: ChannelHandle,
    pub request: AccessRequest,
}

/// The state of the Slack gateway of a hub.
pub struct SlackGatewayState {
    hub_tx: ChannelSender,
    started: bool,
    settings: Settings,
    hub: StoredInfo,
}

#[verifier::ext_equal]
pub struct SlackGatewayView {
    pub handle: ChannelHandle,
    pub hub_tx: ChannelView,
    /// Whether the Slack client has been started.
    pub started: bool,
    pub settings: SettingsView,
    pub hub: HubInfoView,
}

impl View for SlackGatewayState {
    type V = SlackGatewayView;

    closed spec fn view(&self) -> SlackGatewayView {
        SlackGatewayView {
            handle: self.hub_tx.id(),
            hub_tx: self.hub_tx@,
            started: self.started,
            settings: self.settings@,
            hub: self.hub@,
        }
    }
}

impl SlackGatewayView {
    /// The gateway after it has given the hub one message, for one channel or
    /// for all.
    pub open spec fn told(
        self,
        to: Option<ChannelHandle>,
        message: MessageView,
        taken: bool,
    ) -> SlackGatewayView {
        SlackGatewayView {
            hub_tx: self.hub_tx.offered(EventView { from: self.handle, to, message }, taken),
            ..self
        }
    }

    /// The gateway after it has given one channel several texts.
    pub open spec fn told_all(self, to: ChannelHandle, texts: Seq<Seq<char>>) -> SlackGatewayView
        decreases texts.len(),
    {
        if texts.len() == 0 {
            self
        } else {
            self.told_all(to, texts.drop_last()).told(
                Some(to),
                MessageView::AdminMessage(texts.last()),
                true,
            )
        }
    }
}

/// How a user gets a token.
pub open spec fn instructions(client_id: Seq<char>) -> Seq<Seq<char>> {
    seq![
        "#### Retrieving a Slack token via OAUTH ####"@,
        "1) Paste this into a browser: https://slack.com/oauth/authorize?client_id="@ + client_id
            + "&scope=client"@,
        "2) Select the team you wish to access from wee-slack in your browser."@,
        "3) Click \"Authorize\" in the browser **IMPORTANT: the redirect will fail, this is expected**"@,
        "4) Copy the \"code\" portion of the URL to your clipboard"@,
        "5) Return to this channel and send `register [code]`"@,
    ]
}

/// Whether a command of the user hands over a code.
pub open spec fn is_register(cmd: Seq<char>, args: Seq<Seq<char>>) -> bool {
    cmd == "register"@ && args.len() == 1
}

/// What it means to tell a channel how to get a token. If the hub is gone the
/// texts stop at the first that could not be sent.
pub open spec fn is_instructed(
    before: SlackGatewayView,
    from: ChannelHandle,
    client_id: Seq<char>,
    res: Result<(), hub::Error>,
    after: SlackGatewayView,
) -> bool {
    let texts = instructions(client_id);
    match res {
        Ok(()) => {
            &&& after == before.told_all(from, texts)
            &&& before.hub_tx.refused.len() == 0
        },
        Err(e) => {
            &&& e == hub::Error::SendError
            &&& exists|n: int|
                0 <= n < texts.len() && after == #[trigger] before.told_all(
                    from,
                    texts.take(n),
                ).told(Some(from), MessageView::AdminMessage(texts[n]), false)
        },
    }
}

/// What it means to greet a new channel: unless the Slack client is running it
/// is told how to get a token.
pub open spec fn is_greeted(
    before: SlackGatewayView,
    from: ChannelHandle,
    res: Result<(), hub::Error>,
    after: SlackGatewayView,
) -> bool {
    if before.started {
        res is Ok && after == before
    } else {
        is_instructed(before, from, before.settings.slack_client_id->0, res, after)
    }
}

/// What Slack is asked when a code is handed over.
pub open spec fn access_request(settings: SettingsView, code: Seq<char>) -> AccessRequestView {
    AccessRequestView {
        client_id: settings.slack_client_id->0,
        client_secret: settings.slack_secret->0,
        code,
    }
}

/// What the answer of Slack to a code means.
pub open spec fn access_outcome(reply: AccessReply) -> Result<String, Error> {
    match reply {
        AccessReply::NoClient(text) => Err(Error::SlackApiError(text)),
        AccessReply::InvalidCode => Err(Error::InvalidCode),
        AccessReply::Refused(text) => Err(Error::SlackAccessError(text)),
        AccessReply::Granted(token) => Ok(token->0),
    }
}

/// Whether there is everything that the gateway needs for `input`.
pub open spec fn can_handle(settings: SettingsView, started: bool, input: Input) -> bool {
    match input {
        Input::Hub(event) => match event@.message {
            MessageView::NewChannel => started || settings.slack_client_id is Some,
            MessageView::AdminCommand(cmd, args) => is_register(cmd, args) ==> {
                settings.slack_client_id is Some && settings.slack_secret is Some
            },
            _ => true,
        },
        Input::Slack(SlackEvent::Event(SlackMessage::Standard { channel, text, user })) => {
            channel is Some && text is Some && user is Some
        },
        Input::Registered(_, AccessReply::Granted(token)) => token is Some,
        _ => true,
    }
}

/// What it means to tell the hub something and then go on: the hub may be gone.
pub open spec fn is_told(
    before: SlackGatewayView,
    to: Option<ChannelHandle>,
    message: MessageView,
    res: Result<Option<Action>, hub::Error>,
    after: SlackGatewayView,
) -> bool {
    &&& after == before.told(to, message, res is Ok)
    &&& match res {
        Ok(action) => action is None && before.hub_tx.refused.len() == 0,
        Err(e) => e == hub::Error::SendError,
    }
}

/// What it means to handle an event from the hub: a new channel is greeted,
/// and a code that is handed over has to be registered.
pub open spec fn is_hub_event_handled(
    before: SlackGatewayView,
    event: EventView,
    res: Result<Option<Action>, hub::Error>,
    after: SlackGatewayView,
) -> bool {
    match event.message {
        MessageView::NewChannel => match res {
            Ok(action) => action is None && is_greeted(before, event.from, Ok(()), after),
            Err(e) => is_greeted(before, event.from, Err(e), after),
        },
        MessageView::AdminCommand(cmd, args) => {
            &&& after == before
            &&& match res {
                Ok(Some(Action::Register(registration))) => is_registration(
                    before.settings,
                    event.from,
                    cmd,
                    args,
                    Some(registration),
                ),
                Ok(None) => !is_register(cmd, args),
                _ => false,
            }
        },
        _ => res == Ok::<Option<Action>, hub::Error>(None) && after == before,
    }
}

/// What it means to handle an event from Slack: what somebody wrote is told to
/// all channels.
pub open spec fn is_slack_event_handled(
    before: SlackGatewayView,
    event: SlackEvent,
    res: Result<Option<Action>, hub::Error>,
    after: SlackGatewayView,
) -> bool {
    match event {
        SlackEvent::Event(SlackMessage::Standard { channel, text, user }) => is_told(
            before,
            None,
            MessageView::Message(user->0@, channel->0@, text->0@),
            res,
            after,
        ),
        _ => res == Ok::<Option<Action>, hub::Error>(None) && after == before,
    }
}

/// What it means to go on after a code was answered: a token is kept and has to
/// be stored, and any other answer is reported.
pub open spec fn is_answer_handled(
    before: SlackGatewayView,
    from: ChannelHandle,
    outcome: Result<String, Error>,
    res: Result<Option<Action>, hub::Error>,
    after: SlackGatewayView,
) -> bool {
    match outcome {
        Ok(token) => {
            &&& res == Ok::<Option<Action>, hub::Error>(Some(Action::Save(token)))
            &&& after == SlackGatewayView { hub: with_token(before.hub, token@), ..before }
        },
        Err(Error::InvalidCode) => is_told(
            before,
            Some(from),
            MessageView::AdminMessage("The code appears to be invalid"@),
            res,
            after,
        ),
        Err(e) => is_told(
            before,
            None,
            MessageView::Error("[Slack] Failed to register code: "@ + error_text(e)),
            res,
            after,
        ),
    }
}

/// The report that the Slack client could not be started.
pub open spec fn connect_report(e: Error) -> MessageView {
    MessageView::Error("[Slack] Failed to connect: "@ + error_text(e))
}

/// What it means to go on after a new token was stored: the Slack client has to
/// be started, which is reported as a failure if it is running already.
pub open spec fn is_token_handled(
    before: SlackGatewayView,
    token: Seq<char>,
    res: Result<Option<Action>, hub::Error>,
    after: SlackGatewayView,
) -> bool {
    if before.started {
        is_told(before, None, connect_report(Error::AlreadyStarted), res, after)
    } else {
        &&& res matches Ok(Some(Action::LogIn(login))) && login@ == token
        &&& after == before
    }
}

/// What it means to go on after logging in with a new token: the Slack client
/// is running, or the failure is reported.
pub open spec fn is_login_handled(
    before: SlackGatewayView,
    outcome: Result<(), String>,
    res: Result<Option<Action>, hub::Error>,
    after: SlackGatewayView,
) -> bool {
    match outcome {
        Ok(()) => {
            &&& res == Ok::<Option<Action>, hub::Error>(None)
            &&& after == SlackGatewayView { started: true, ..before }
        },
        Err(text) => is_told(before, None, connect_report(Error::SlackError(text)), res, after),
    }
}

/// What it means to handle `input`.
pub open spec fn is_handled(
    before: SlackGatewayView,
    input: Input,
    res: Result<Option<Action>, hub::Error>,
    after: SlackGatewayView,
) -> bool {
    match input {
        Input::Hub(event) => is_hub_event_handled(before, event@, res, after),
        Input::Slack(event) => is_slack_event_handled(before, event, res, after),
        Input::Registered(from, reply) => is_answer_handled(
            before,
            from,
            access_outcome(reply),
            res,
            after,
        ),
        Input::Saved(token) => is_token_handled(before, token@, res, after),
        Input::LoggedIn(outcome) => is_login_handled(before, outcome, res, after),
    }
}

/// What a command of the user comes to: a code that is handed over has to be
/// registered for the channel it comes from, and nothing else is understood.
pub open spec fn is_registration(
    settings: SettingsView,
    from: ChannelHandle,
    cmd: Seq<char>,
    args: Seq<Seq<char>>,
    res: Option<Registration>,
) -> bool {
    match res {
        Some(registration) => {
            &&& is_register(cmd, args)
            &&& registration.from == from
            &&& registration.request@ == access_request(settings, args[0])
        },
        None => !is_register(cmd, args),
    }
}

impl SlackGatewayState {
    pub fn new(tx: ChannelSender, settings: Settings, hub: StoredInfo) -> (res: SlackGatewayState)
        ensures
            res@ == new_gateway(tx, settings, hub),
    {
        SlackGatewayState { hub_tx: tx, started: false, settings, hub }
    }

    /// Tells one channel something.
    pub fn send_to(&mut self, from: ChannelHandle, message: HubMessage) -> (res: Result<
        (),
        hub::Error,
    >)
        ensures
            final(self)@ == old(self)@.told(Some(from), message@, res is Ok),
            res == send_result(res is Ok),
            old(self)@.hub_tx.refused.len() > 0 ==> res is Err,
    {
        self.hub_tx.send_to(from, message)
    }

    /// Tells all channels something.
    pub fn broadcast(&mut self, message: HubMessage) -> (res: Result<(), hub::Error>)
        ensures
            final(self)@ == old(self)@.told(None, message@, res is Ok),
            res == send_result(res is Ok),
            old(self)@.hub_tx.refused.len() > 0 ==> res is Err,
    {
        self.hub_tx.broadcast(message)
    }

    /// How a user gets a token, line by line.
    fn instruction_lines(client_id: &str) -> (res: Vec<String>)
        ensures
            views(res@) == instructions(client_id@),
    {
        let mut lines: Vec<String> = Vec::new();
        lines.push("#### Retrieving a Slack token via OAUTH ####".to_string());
        lines.push(
            join(
                join(
                    "1) Paste this into a browser: https://slack.com/oauth/authorize?client_id=",
                    client_id,
                ).as_str(),
                "&scope=client",
            ),
        );
        lines.push(
            "2) Select the team you wish to access from wee-slack in your browser.".to_string(),
        );
        lines.push(
            "3) Click \"Authorize\" in the browser **IMPORTANT: the redirect will fail, this is expected**".to_string(),
        );
        lines.push("4) Copy the \"code\" portion of the URL to your clipboard".to_string());
        lines.push("5) Return to this channel and send `register [code]`".to_string());
        assert(views(lines@) =~= instructions(client_id@));
        lines
    }

    /// Greets a new channel.
    pub fn on_new_channel(&mut self, from: ChannelHandle) -> (res: Result<(), hub::Error>)
        requires
            old(self)@.started || old(self)@.settings.slack_client_id is Some,
        ensures
            is_greeted(old(self)@, from, res, final(self)@),
    {
        if self.started {
            return Ok(());
        }
        let lines = match &self.settings.slack_client_id {
            Some(client_id) => Self::instruction_lines(client_id.as_str()),
            None => Vec::new(),
        };
        let ghost texts = instructions(old(self)@.settings.slack_client_id->0);
        let mut i: usize = 0;
        while i < lines.len()
            invariant
                i <= lines@.len(),
                views(lines@) == texts,
                texts == instructions(old(self)@.settings.slack_client_id->0),
                self@ == old(self)@.told_all(from, texts.take(i as int)),
                !old(self)@.started,
                i > 0 ==> old(self)@.hub_tx.refused.len() == 0,
                self@.hub_tx.refused == old(self)@.hub_tx.refused,
            decreases lines@.len() - i,
        {
            let line = lines[i].clone();
            assert(views(lines@)[i as int] == line@);
            assert(texts.take(i + 1).drop_last() =~= texts.take(i as int));
            match self.send_to(from, HubMessage::AdminMessage(line)) {
                Ok(()) => {},
                Err(e) => {
                    return Err(e);
                },
            }
            i += 1;
        }
        assert(texts.take(i as int) =~= texts);
        Ok(())
    }

    /// Decides what a command of the user comes to.
    pub fn on_command(
        &self,
        from: ChannelHandle,
        cmd: &str,
        args: &Vec<String>,
    ) -> (res: Option<Registration>)
        requires
            is_register(cmd@, views(args@)) ==> self@.settings.slack_client_id is Some
                && self@.settings.slack_secret is Some,
        ensures
            is_registration(self@.settings, from, cmd@, views(args@), res),
    {
        if same(cmd, "register") && args.len() == 1 {
            Some(Registration { from, request: self.register_code(args[0].as_str()) })
        } else {
            None
        }
    }

    /// What to ask Slack when a code is handed over.
    pub fn register_code(&self, code: &str) -> (res: AccessRequest)
        requires
            self@.settings.slack_client_id is Some,
            self@.settings.slack_secret is Some,
        ensures
            res@ == access_request(self@.settings, code@),
    {
        AccessRequest {
            client_id: self.settings.slack_client_id.clone().unwrap(),
            client_secret: self.settings.slack_secret.clone().unwrap(),
            code: code.to_string(),
        }
    }

    /// What the answer of Slack to a code means.
    pub fn code_answered(reply: AccessReply) -> (res: Result<String, Error>)
        requires
            reply matches AccessReply::Granted(token) ==> token is Some,
        ensures
            res == access_outcome(reply),
    {
        match reply {
            AccessReply::NoClient(text) => Err(Error::SlackApiError(text)),
            AccessReply::InvalidCode => Err(Error::InvalidCode),
            AccessReply::Refused(text) => Err(Error::SlackAccessError(text)),
            AccessReply::Granted(token) => Ok(token.unwrap()),
        }
    }

    /// Tells the hub something, after which there is nothing to be done.
    fn tell(&mut self, to: Option<ChannelHandle>, message: HubMessage) -> (res: Result<
        Option<Action>,
        hub::Error,
    >)
        ensures
            is_told(old(self)@, to, message@, res, final(self)@),
    {
        let told = match to {
            Some(to) => self.send_to(to, message),
            None => self.broadcast(message),
        };
        match told {
            Ok(()) => Ok(None),
            Err(e) => Err(e),
        }
    }

    /// Goes on after a code was answered.
    pub fn on_registered(
        &mut self,
        from: ChannelHandle,
        outcome: Result<String, Error>,
    ) -> (res: Result<Option<Action>, hub::Error>)
        ensures
            is_answer_handled(old(self)@, from, outcome, res, final(self)@),
    {
        match outcome {
            Err(Error::InvalidCode) => self.tell(
                Some(from),
                HubMessage::AdminMessage("The code appears to be invalid".to_string()),
            ),
            Err(e) => self.tell(
                None,
                HubMessage::Error(
                    join("[Slack] Failed to register code: ", e.describe().as_str()),
                ),
            ),
            Ok(token) => {
                self.hub.set_token(token.as_str());
                Ok(Some(Action::Save(token)))
            },
        }
    }

    /// What is to be stored about the hub.
    pub fn hub_info(&self) -> (res: &HubInfo)
        ensures
            res@ == self@.hub,
    {
        self.hub.info()
    }

    /// Whether the Slack client can be started, and the token to log in with.
    pub fn try_start_slack(&self) -> (res: Result<String, Error>)
        ensures
            is_first_start(self@, res),
    {
        match self.hub.token() {
            Some(token) => self.start_slack(token.as_str()),
            None => Err(Error::NoToken),
        }
    }

    /// Whether the Slack client can be started, and the token to log in with.
    pub fn start_slack(&self, token: &str) -> (res: Result<String, Error>)
        ensures
            is_start(self@.started, token@, res),
    {
        if self.started {
            return Err(Error::AlreadyStarted);
        }
        Ok(token.to_string())
    }

    /// Takes note of how logging in to Slack went, which may fail for a reason.
    pub fn on_login(&mut self, outcome: Result<(), String>) -> (res: Result<(), Error>)
        ensures
            match outcome {
                Ok(()) => {
                    &&& res is Ok
                    &&& final(self)@ == (SlackGatewayView { started: true, ..old(self)@ })
                },
                Err(text) => {
                    &&& res == Err::<(), Error>(Error::SlackError(text))
                    &&& final(self)@ == old(self)@
                },
            },
    {
        match outcome {
            Ok(()) => {
                self.started = true;
                Ok(())
            },
            Err(text) => Err(Error::SlackError(text)),
        }
    }

    /// Goes on after a new token was stored.
    pub fn on_saved(&mut self, token: &str) -> (res: Result<Option<Action>, hub::Error>)
        ensures
            is_token_handled(old(self)@, token@, res, final(self)@),
    {
        match self.start_slack(token) {
            Ok(login) => Ok(Some(Action::LogIn(login))),
            Err(e) => self.report_start(e),
        }
    }

    /// Goes on after logging in with a new token.
    pub fn on_logged_in(&mut self, outcome: Result<(), String>) -> (res: Result<
        Option<Action>,
        hub::Error,
    >)
        ensures
            is_login_handled(old(self)@, outcome, res, final(self)@),
    {
        match self.on_login(outcome) {
            Ok(()) => Ok(None),
            Err(e) => self.report_start(e),
        }
    }

    /// Tells all channels that the Slack client could not be started.
    fn report_start(&mut self, e: Error) -> (res: Result<Option<Action>, hub::Error>)
        ensures
            is_told(old(self)@, None, connect_report(e), res, final(self)@),
    {
        self.tell(
            None,
            HubMessage::Error(join("[Slack] Failed to connect: ", e.describe().as_str())),
        )
    }

    /// Whether there is everything that is needed for `input`.
    pub fn is_ready_for(&self, input: &Input) -> (res: bool)
        ensures
            res == can_handle(self@.settings, self@.started, *input),
    {
        let client_id = self.settings.slack_client_id.is_some();
        let secret = self.settings.slack_secret.is_some();
        match input {
            Input::Hub(event) => match &event.message {
                HubMessage::NewChannel => self.started || client_id,
                HubMessage::AdminCommand(cmd, args) => {
                    !(same(cmd.as_str(), "register") && args.len() == 1) || (client_id && secret)
                },
                _ => true,
            },
            Input::Slack(SlackEvent::Event(SlackMessage::Standard { channel, text, user })) => {
                channel.is_some() && text.is_some() && user.is_some()
            },
            Input::Registered(_, AccessReply::Granted(token)) => token.is_some(),
            _ => true,
        }
    }

    /// Handles an event from the hub.
    pub fn on_hub_event(&mut self, event: hub::Event) -> (res: Result<Option<Action>, hub::Error>)
        requires
            can_handle(old(self)@.settings, old(self)@.started, Input::Hub(event)),
        ensures
            is_hub_event_handled(old(self)@, event@, res, final(self)@),
    {
        let hub::Event { from, to: _, message } = event;
        match message {
            HubMessage::NewChannel => match self.on_new_channel(from) {
                Ok(()) => Ok(None),
                Err(e) => Err(e),
            },
            HubMessage::AdminCommand(cmd, args) => match self.on_command(
                from,
                cmd.as_str(),
                &args,
            ) {
                Some(registration) => Ok(Some(Action::Register(registration))),
                None => Ok(None),
            },
            _ => Ok(None),
        }
    }

    /// Handles an event from Slack.
    pub fn on_slack_event(&mut self, event: SlackEvent) -> (res: Result<
        Option<Action>,
        hub::Error,
    >)
        requires
            can_handle(old(self)@.settings, old(self)@.started, Input::Slack(event)),
        ensures
            is_slack_event_handled(old(self)@, event, res, final(self)@),
    {
        match event {
            SlackEvent::Event(SlackMessage::Standard { channel, text, user }) => self.tell(
                None,
                HubMessage::Message(user.unwrap(), channel.unwrap(), text.unwrap()),
            ),
            _ => Ok(None),
        }
    }

    /// Handles whatever reaches the gateway, and returns what is to be done.
    pub fn on_input(&mut self, input: Input) -> (res: Result<Option<Action>, hub::Error>)
        requires
            can_handle(old(self)@.settings, old(self)@.started, input),
        ensures
            is_handled(old(self)@, input, res, final(self)@),
    {
        match input {
            Input::Hub(event) => self.on_hub_event(event),
            Input::Slack(event) => self.on_slack_event(event),
            Input::Registered(from, reply) => self.on_registered(from, Self::code_answered(reply)),
            Input::Saved(token) => self.on_saved(token.as_str()),
            Input::LoggedIn(outcome) => self.on_logged_in(outcome),
        }
    }
}

/// A gateway that has not done anything.
pub open spec fn new_gateway(
    tx: ChannelSender,
    settings: Settings,
    hub: StoredInfo,
) -> SlackGatewayView {
    SlackGatewayView {
        handle: tx.id(),
        hub_tx: tx@,
        started: false,
        settings: settings@,
        hub: hub@,
    }
}

/// What comes of the wish to start the Slack client with the token of the hub.
pub open spec fn is_first_start(gateway: SlackGatewayView, res: Result<String, Error>) -> bool {
    match gateway.hub.settings.token {
        None => res == Err::<String, Error>(Error::NoToken),
        Some(token) => is_start(gateway.started, token, res),
    }
}

/// What comes of the wish to start the Slack client: it can be started once.
pub open spec fn is_start(started: bool, token: Seq<char>, res: Result<String, Error>) -> bool {
    match res {
        Ok(login) => !started && login@ == token,
        Err(e) => started && e == Error::AlreadyStarted,
    }
}

} // verus!
