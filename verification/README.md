# slack_irc

A gateway that lets IRC clients talk to Slack workspaces. Every user has a hub;
the Slack gateway of the user and each of their IRC connections are channels of
that hub, and everything that one of them says reaches the others through it.

* `src/` is the library, verified with Verus. It makes all decisions: how hubs
  spread events, how a client logs in and what it is told, how lines of IRC are
  read and written, and how the Slack side reacts. `src/laws.rs` states what
  holds across several operations.
* `tests/` holds the tests of the library.
* `app/` is the program: the server socket, the database, and the Slack web
  service.

The library calls `bcrypt` for passwords, `config` for settings, `irc` for lines
and `futures` for the queues between channels. What it takes on trust about them
stands above each of these calls, under "Not proved here".

## Settings

`settings.toml` and `slack.toml`, both optional, are read from the working
directory.

| key               | meaning                                              |
|-------------------|------------------------------------------------------|
| `database`        | where accounts are kept; in memory if it is missing  |
| `irc.listen`      | the address that the server listens on               |
| `irc.host`        | the name that the server gives itself                |
| `irc.botnick`     | the name under which the gateway talks to its users  |
| `slack.client_id` | the identity of the gateway at Slack                 |
| `slack.secret`    | the secret that goes with it                         |

A client logs in with `NICK nick` and `PASS workspace.password`. The first login
makes an account. Until the hub has a Slack token the gateway tells each new
connection how to get one.
