//! What the Slack gateway does for those who use it.

use crate::hub::{ChannelHandle, Error as HubError, Event, EventView, Message, MessageView};
use crate::hub_laws::got_just;
use crate::settings::SettingsView;
use crate::slack_gateway::{
    access_outcome, access_request, can_handle, error_text, instructions, is_handled, is_start,
    AccessReply, AccessRequest, Action, Error, Input, SlackEvent, SlackGatewayView, SlackMessage,
};
use crate::text::views;
use vstd::prelude::*;

verus! {

/// Nothing but the way into the hub has changed.
pub open spec fn only_spoke(before: SlackGatewayView, after: SlackGatewayView) -> bool {
    &&& after.handle == before.handle
    &&& after.started == before.started
    &&& after.settings == before.settings
    &&& after.hub == before.hub
}

/// The gateway has said one thing, to one channel or to all, and nothing else;
/// or the hub did not take it, and that is what came back.
pub open spec fn said(
    before: SlackGatewayView,
    to: Option<ChannelHandle>,
    message: MessageView,
    res: Result<Option<Action>, HubError>,
    after: SlackGatewayView,
) -> bool {
    let event = EventView { from: before.handle, to, message };
    &&& only_spoke(before, after)
    &&& match res {
        Ok(action) => {
            &&& action is None
            &&& got_just(before.hub_tx, event, after.hub_tx)
            &&& before.hub_tx.refused.len() == 0
        },
        Err(e) => {
            &&& e is SendError
            &&& after.hub_tx.refused == before.hub_tx.refused + seq![event]
            &&& after.hub_tx.accepted == before.hub_tx.accepted
            &&& after.hub_tx.queue == before.hub_tx.queue
            &&& after.hub_tx.copies == before.hub_tx.copies
        },
    }
}

/// What Slack is asked with when a code is handed over: that code, all of it, and
/// the identity and the secret of the gateway.
pub proof fn law_code_is_handed_over_whole(
    settings: SettingsView,
    code: Seq<char>,
    request: AccessRequest,
)
    requires
        settings.slack_client_id is Some,
        settings.slack_secret is Some,
        request@ == access_request(settings, code),
    ensures
        request.code@ == code,
        settings.slack_client_id == Some(request.client_id@),
        settings.slack_secret == Some(request.client_secret@),
{
}

/// What a command comes to: `register` with one argument makes Slack be asked
/// with just that argument, for the channel that the command came from. Any
/// other command comes to nothing. Nobody is told anything yet.
pub proof fn law_register_is_the_only_command(
    before: SlackGatewayView,
    event: Event,
    command: String,
    args: Vec<String>,
    res: Result<Option<Action>, HubError>,
    after: SlackGatewayView,
)
    requires
        event.message == Message::AdminCommand(command, args),
        can_handle(before.settings, before.started, Input::Hub(event)),
        is_handled(before, Input::Hub(event), res, after),
    ensures
        after == before,
        command@ == "register"@ && args@.len() == 1 ==> {
            &&& res matches Ok(Some(Action::Register(registration)))
            &&& registration.from == event.from
            &&& registration.request.code@ == args@[0]@
            &&& before.settings.slack_client_id == Some(registration.request.client_id@)
            &&& before.settings.slack_secret == Some(registration.request.client_secret@)
        },
        command@ != "register"@ || args@.len() != 1 ==> (res matches Ok(action) && action is None),
{
    assert(views(args@).len() == args@.len());
    if args@.len() == 1 {
        assert(views(args@)[0] == args@[0]@);
    }
}

/// What a channel that joins is told while Slack is not running: how to get a
/// token, with the identity of the gateway in the link, line by line, and to that
/// channel alone.
pub proof fn law_newcomer_is_told_how_to_register(
    before: SlackGatewayView,
    event: Event,
    client_id: Seq<char>,
    res: Result<Option<Action>, HubError>,
    after: SlackGatewayView,
    lines: Seq<Seq<char>>,
    i: int,
)
    requires
        event.message is NewChannel,
        !before.started,
        before.settings.slack_client_id == Some(client_id),
        is_handled(before, Input::Hub(event), res, after),
        res is Ok,
        lines == seq![
            "#### Retrieving a Slack token via OAUTH ####"@,
            "1) Paste this into a browser: https://slack.com/oauth/authorize?client_id="@
                + client_id + "&scope=client"@,
            "2) Select the team you wish to access from wee-slack in your browser."@,
            "3) Click \"Authorize\" in the browser **IMPORTANT: the redirect will fail, this is expected**"@,
            "4) Copy the \"code\" portion of the URL to your clipboard"@,
            "5) Return to this channel and send `register [code]`"@,
        ],
        0 <= i < 6,
    ensures
        res->Ok_0 is None,
        only_spoke(before, after),
        after.hub_tx.refused == before.hub_tx.refused,
        after.hub_tx.queue == before.hub_tx.queue,
        after.hub_tx.copies == before.hub_tx.copies,
        after.hub_tx.accepted.len() == before.hub_tx.accepted.len() + 6,
        after.hub_tx.accepted.take(before.hub_tx.accepted.len() as int) == before.hub_tx.accepted,
        after.hub_tx.accepted[before.hub_tx.accepted.len() + i] == (EventView {
            from: before.handle,
            to: Some(event.from),
            message: MessageView::AdminMessage(lines[i]),
        }),
{
    let texts = instructions(client_id);
    assert(texts =~= lines);
    lemma_told(before, event.from, texts, 6);
    assert(texts.take(6) =~= texts);
}

/// What has been said after the first `n` of several texts.
proof fn lemma_told(before: SlackGatewayView, to: ChannelHandle, texts: Seq<Seq<char>>, n: int)
    requires
        0 <= n <= texts.len(),
    ensures
        ({
            let after = before.told_all(to, texts.take(n));
            let old_len = before.hub_tx.accepted.len();
            &&& only_spoke(before, after)
            &&& after.hub_tx.refused == before.hub_tx.refused
            &&& after.hub_tx.queue == before.hub_tx.queue
            &&& after.hub_tx.copies == before.hub_tx.copies
            &&& after.hub_tx.accepted.len() == old_len + n
            &&& after.hub_tx.accepted.take(old_len as int) == before.hub_tx.accepted
            &&& forall|i: int|
                0 <= i < n ==> #[trigger] after.hub_tx.accepted[old_len + i] == (EventView {
                    from: before.handle,
                    to: Some(to),
                    message: MessageView::AdminMessage(texts[i]),
                })
        }),
    decreases n,
{
    let old_len = before.hub_tx.accepted.len() as int;
    if n == 0 {
        assert(texts.take(0).len() == 0);
        assert(before.hub_tx.accepted.take(old_len) =~= before.hub_tx.accepted);
    } else {
        lemma_told(before, to, texts, n - 1);
        assert(texts.take(n).drop_last() =~= texts.take(n - 1));
        let middle = before.told_all(to, texts.take(n - 1));
        let after = before.told_all(to, texts.take(n));
        assert(after.hub_tx.accepted.take(old_len) =~= middle.hub_tx.accepted.take(old_len));
        assert forall|i: int| 0 <= i < n implies #[trigger] after.hub_tx.accepted[old_len + i] == (
        EventView {
            from: before.handle,
            to: Some(to),
            message: MessageView::AdminMessage(texts[i]),
        }) by {
            if i < n - 1 {
                assert(after.hub_tx.accepted[old_len + i] == middle.hub_tx.accepted[old_len + i]);
            }
        }
    }
}

/// What a channel that joins is told while Slack is not running and the hub is
/// gone: the first of the lines were taken, the next was not, and that is what
/// came back.
pub proof fn law_newcomer_cannot_be_told(
    before: SlackGatewayView,
    event: Event,
    client_id: Seq<char>,
    res: Result<Option<Action>, HubError>,
    after: SlackGatewayView,
    lines: Seq<Seq<char>>,
    n: int,
    i: int,
)
    requires
        event.message is NewChannel,
        !before.started,
        before.settings.slack_client_id == Some(client_id),
        is_handled(before, Input::Hub(event), res, after),
        res is Err,
        lines == seq![
            "#### Retrieving a Slack token via OAUTH ####"@,
            "1) Paste this into a browser: https://slack.com/oauth/authorize?client_id="@
                + client_id + "&scope=client"@,
            "2) Select the team you wish to access from wee-slack in your browser."@,
            "3) Click \"Authorize\" in the browser **IMPORTANT: the redirect will fail, this is expected**"@,
            "4) Copy the \"code\" portion of the URL to your clipboard"@,
            "5) Return to this channel and send `register [code]`"@,
        ],
        n == after.hub_tx.accepted.len() - before.hub_tx.accepted.len(),
    ensures
        res->Err_0 is SendError,
        only_spoke(before, after),
        after.hub_tx.queue == before.hub_tx.queue,
        after.hub_tx.copies == before.hub_tx.copies,
        0 <= n < 6,
        before.hub_tx.accepted == after.hub_tx.accepted.take(before.hub_tx.accepted.len() as int),
        0 <= i < n ==> after.hub_tx.accepted[before.hub_tx.accepted.len() + i] == (EventView {
            from: before.handle,
            to: Some(event.from),
            message: MessageView::AdminMessage(lines[i]),
        }),
        after.hub_tx.refused == before.hub_tx.refused + seq![
            EventView {
                from: before.handle,
                to: Some(event.from),
                message: MessageView::AdminMessage(lines[n]),
            },
        ],
{
    let texts = instructions(client_id);
    assert(texts =~= lines);
    let taken = choose|n: int|
        0 <= n < texts.len() && after == #[trigger] before.told_all(
            event@.from,
            texts.take(n),
        ).told(Some(event@.from), MessageView::AdminMessage(texts[n]), false);
    lemma_told(before, event.from, texts, taken);
    lemma_said();
}

/// Once Slack is running a channel that joins is told nothing, and what else
/// comes from the hub never concerns the gateway.
pub proof fn law_gateway_keeps_quiet(
    before: SlackGatewayView,
    event: Event,
    res: Result<Option<Action>, HubError>,
    after: SlackGatewayView,
)
    requires
        is_handled(before, Input::Hub(event), res, after),
        before.started || !(event.message is NewChannel),
        !(event.message is AdminCommand),
    ensures
        after == before,
        res matches Ok(action) && action is None,
{
}

/// What somebody writes at Slack is said to all channels as it is: who wrote it,
/// where, and the text. Nothing else that happens at Slack is said to anybody.
pub proof fn law_slack_talk_is_passed_on(
    before: SlackGatewayView,
    event: SlackEvent,
    res: Result<Option<Action>, HubError>,
    after: SlackGatewayView,
)
    requires
        can_handle(before.settings, before.started, Input::Slack(event)),
        is_handled(before, Input::Slack(event), res, after),
    ensures
        match event {
            SlackEvent::Event(
                SlackMessage::Standard { channel: Some(channel), text: Some(text), user: Some(user) },
            ) => said(before, None, MessageView::Message(user@, channel@, text@), res, after),
            SlackEvent::Event(SlackMessage::Standard { .. }) => false,
            _ => after == before && (res matches Ok(action) && action is None),
        },
{
    lemma_said();
}

proof fn lemma_said()
    ensures
        forall|s: Seq<EventView>, e: EventView| #[trigger] s.push(e) == s + seq![e],
{
    assert forall|s: Seq<EventView>, e: EventView| #[trigger] s.push(e) == s + seq![e] by {
        assert(s.push(e) =~= s + seq![e]);
    }
}

/// What comes of the answer to a code. A token is kept, to be stored, and nobody
/// is told. That the code is unknown is said to the one who gave it, and any
/// other failure, with its reason, to all.
pub proof fn law_answer_to_code(
    before: SlackGatewayView,
    from: ChannelHandle,
    reply: AccessReply,
    res: Result<Option<Action>, HubError>,
    after: SlackGatewayView,
)
    requires
        can_handle(before.settings, before.started, Input::Registered(from, reply)),
        is_handled(before, Input::Registered(from, reply), res, after),
    ensures
        match reply {
            AccessReply::Granted(Some(token)) => {
                &&& res matches Ok(Some(Action::Save(saved))) && saved@ == token@
                &&& after.handle == before.handle
                &&& after.hub_tx == before.hub_tx
                &&& after.started == before.started
                &&& after.settings == before.settings
                &&& after.hub.id == before.hub.id
                &&& after.hub.workspace == before.hub.workspace
                &&& after.hub.nick == before.hub.nick
                &&& after.hub.settings.pass == before.hub.settings.pass
                &&& after.hub.settings.token == Some(token@)
            },
            AccessReply::Granted(None) => false,
            AccessReply::InvalidCode => said(
                before,
                Some(from),
                MessageView::AdminMessage("The code appears to be invalid"@),
                res,
                after,
            ),
            AccessReply::NoClient(reason) => said(
                before,
                None,
                MessageView::Error(
                    "[Slack] Failed to register code: "@ + ("SlackApiError("@ + reason@ + ")"@),
                ),
                res,
                after,
            ),
            AccessReply::Refused(reason) => said(
                before,
                None,
                MessageView::Error(
                    "[Slack] Failed to register code: "@ + ("SlackAccessError("@ + reason@ + ")"@),
                ),
                res,
                after,
            ),
        },
{
    lemma_said();
}

/// What comes of a token that has been stored: the Slack client is to log in with
/// just that token, or all are told that it is running already.
pub proof fn law_saved_token_is_used(
    before: SlackGatewayView,
    token: String,
    res: Result<Option<Action>, HubError>,
    after: SlackGatewayView,
)
    requires
        is_handled(before, Input::Saved(token), res, after),
    ensures
        !before.started ==> {
            &&& after == before
            &&& res matches Ok(Some(Action::LogIn(login)))
            &&& login@ == token@
        },
        before.started ==> said(
            before,
            None,
            MessageView::Error("[Slack] Failed to connect: "@ + "AlreadyStarted"@),
            res,
            after,
        ),
{
    lemma_said();
}

/// What comes of logging in: the client is running, and nobody is told, or all
/// are told the reason why it is not, and it may be tried again.
pub proof fn law_login_outcome_is_told(
    before: SlackGatewayView,
    outcome: Result<(), String>,
    res: Result<Option<Action>, HubError>,
    after: SlackGatewayView,
)
    requires
        is_handled(before, Input::LoggedIn(outcome), res, after),
    ensures
        match outcome {
            Ok(_) => {
                &&& res matches Ok(action) && action is None
                &&& after.started
                &&& after.handle == before.handle
                &&& after.hub_tx == before.hub_tx
                &&& after.settings == before.settings
                &&& after.hub == before.hub
            },
            Err(reason) => said(
                before,
                None,
                MessageView::Error(
                    "[Slack] Failed to connect: "@ + ("SlackError("@ + reason@ + ")"@),
                ),
                res,
                after,
            ),
        },
{
    lemma_said();
}

/// The wish to start the Slack client is granted with the token as it is, unless
/// the client is running.
pub proof fn law_start_takes_the_token(
    started: bool,
    token: Seq<char>,
    res: Result<String, Error>,
)
    requires
        is_start(started, token, res),
    ensures
        started ==> (res matches Err(e) && e is AlreadyStarted),
        !started ==> (res matches Ok(login) && login@ == token),
{
}

/// What an answer of Slack to a code means: the token as Slack gave it, or the
/// failure with its reason.
pub proof fn law_answer_keeps_its_reason(reply: AccessReply, outcome: Result<String, Error>)
    requires
        outcome == access_outcome(reply),
        reply matches AccessReply::Granted(token) ==> token is Some,
    ensures
        match reply {
            AccessReply::Granted(Some(token)) => outcome matches Ok(t) && t@ == token@,
            AccessReply::Granted(None) => false,
            AccessReply::InvalidCode => outcome matches Err(e) && e is InvalidCode,
            AccessReply::NoClient(reason) => outcome matches Err(Error::SlackApiError(r)) && r@
                == reason@,
            AccessReply::Refused(reason) => outcome matches Err(Error::SlackAccessError(r)) && r@
                == reason@,
        },
{
}

/// A report names what went wrong, and gives the whole reason in parentheses if
/// there is one.
pub proof fn law_reports_name_the_error(e: Error)
    ensures
        match e {
            Error::NoToken => error_text(e) == "NoToken"@,
            Error::InvalidCode => error_text(e) == "InvalidCode"@,
            Error::AlreadyStarted => error_text(e) == "AlreadyStarted"@,
            Error::SlackApiError(reason) => error_text(e) == "SlackApiError("@ + reason@ + ")"@,
            Error::SlackAccessError(reason) => error_text(e) == "SlackAccessError("@ + reason@
                + ")"@,
            Error::SlackError(reason) => error_text(e) == "SlackError("@ + reason@ + ")"@,
        },
{
}

/// When the gateway can do its work: a newcomer can be told how to register if
/// the gateway has an identity at Slack, or Slack is running; a code can be used
/// with that identity and its secret; and what Slack sends has to be complete.
/// Everything else it can always handle.
pub proof fn law_what_the_gateway_needs(settings: SettingsView, started: bool, input: Input)
    ensures
        match input {
            Input::Hub(event) => match event.message {
                Message::NewChannel => can_handle(settings, started, input) <==> started
                    || settings.slack_client_id is Some,
                Message::AdminCommand(command, args) => can_handle(settings, started, input) <==> (
                command@ != "register"@ || args@.len() != 1 || (settings.slack_client_id is Some
                    && settings.slack_secret is Some)),
                _ => can_handle(settings, started, input),
            },
            Input::Slack(SlackEvent::Event(SlackMessage::Standard { channel, text, user })) => {
                can_handle(settings, started, input) <==> channel is Some && text is Some
                    && user is Some
            },
            Input::Registered(_, AccessReply::Granted(token)) => can_handle(
                settings,
                started,
                input,
            ) <==> token is Some,
            _ => can_handle(settings, started, input),
        },
{
    if let Input::Hub(event) = input {
        if let Message::AdminCommand(command, args) = event.message {
            assert(views(args@).len() == args@.len());
        }
    }
}

} // verus!
