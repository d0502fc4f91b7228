# chat_app

A small group chat: users sign up and log in, create groups that others
join with a short code, and chat over web sockets. The logic is a Verus
library (`src/`); the server and browser glue around it is in `app/`.

## Library (`src/`, verified)

- `text` – building strings, decimal rendering, white space as `char::is_whitespace` sees it.
- `join_code` – a group's join code: `id * 10000 + created_at % 10000` in upper-case base 36;
  codes of different groups differ.
- `token` – HS256 access tokens carrying `{"user_id":…,"exp":…}`; a token issued for a user
  validates back to that user until it expires.
- `api` – the HTTP answers, the decision each handler takes after each database query, and the
  history request run entry by entry.
- `tables` – a model of the database tables and of what sign-up, joining, leaving and history do
  to them (join codes compared as the `NOCASE` column does), with the laws: user names stay unique,
  a second join is refused, joining a group by its code then leaving restores the tables (codes
  being unique), history answers list each group's messages above the latest id by increasing id,
  a later latest id gives the earlier answer's newer messages, and the history request run step
  by step answers what the model answers.
- `chat` – the registry of connected users, who receives a chat message (the online members of
  its group), and how a connection treats incoming frames (a JSON chat message goes to the chat
  server, other text is written back after `RawText: `, `{disconnect}` closes).
- `client`, `replies`, `login_form`, `registration` – the browser client's state machines and
  how it reads the server's answers.

## Program (`app/`)

`app/main.rs` is the server (actix-web, sqlx, actix actors); the `client*` modules hold the
yew front end. They run the I/O and hand every outcome to the library.
