# cfsurge

The logic of a command line tool that publishes static sites, with its behaviour stated in
contracts and proved by Verus.

- `src/` is the verified library. Texts are modelled as sequences of characters; every type that
  holds texts is generic over them, so that one definition serves the program and its contracts.
  - `text`, `args`, `json`, `http`, `talk`: what the rest is written in.
  - `access`, `slug`, `address`, `site`, `config`, `dotenv`, `credentials`, `keychain`: settings,
    the files they are read from, and how they are checked.
  - `resolve`, `prompt`: where a setting comes from, and what the user is asked.
  - `session`, `login`, `passwd`, `logout`, `init`, `projects`, `removal`, `admin`: the
    commands. A command that alternates decisions with outside work is a state with an `action`
    and a `next`.
  - `setup`, `files`, `collect`, `progress`, `publish`, `cancel`: publishing a site.
- `app/` is the program around it: files, network, terminal, keychain and signals.
- `tests/` runs the library.

A proof function whose name starts with `law_` states a property of the library as a whole.
