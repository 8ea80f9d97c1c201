# PraiseChords

A web application for a church's library of song chords: users sign in,
search and read chord sheets, keep favourites and build setlists to play
through; collaborators submit songs, moderators approve them and
programmers manage accounts.

The crate is verified with Verus.

- `src/` is the library: every rule the pages follow, with contracts that
  Verus proves.
  - `text`, `numbers`: trimming, escaping, newline and accent folding,
    parsing and printing numbers.
  - `access`: profiles and what each may do with songs.
  - `songs`, `codes`, `search`, `youtube`: song cards and lists, song
    forms and catalogue codes, search queries, video links.
  - `setlists`: reordering, the player's navigation, share links.
  - `users`, `tokens`, `config`: signing in, registration, password
    resets, the user manager, tokens and digests, settings and emails.
  - `session`: the signed session token (an HS256 JWT) of the login
    cookie, its expiry and what the pages read from it.
  - `pages`: statistics, the home page header, genres, donations.
- `app/` is the server around it (axum, sqlx, lettre, askama): it reads
  requests and the database, calls the library, and sends the answers.
  Its page templates live in a `templates/` directory beside the crate.
- `tests/` runs the library on concrete values.
