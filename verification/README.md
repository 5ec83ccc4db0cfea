# crust_ai

The verified core of Crust AI, a Leptos chat application with
password-based accounts.

- `src/` is the library, checked by Verus:
  - `home_chat`: the home-page conversation as a state machine (input,
    send, reply, mode), with its invariant and laws;
  - `chat_routes`, `chat_replies`, `chat_models`: chat URLs, the placeholder
    reply, message and summary types;
  - `auth_model`, `auth_flow`, `password`: the account record, the
    registration and login decisions, and the bcrypt calls they rest on;
  - `route_guard`, `app_shell`, `text`: the protected-route decision, the
    side navigation's stored state and classes, and string helpers.
- `app/` holds the Leptos components and server functions, which perform the
  I/O (database, session, browser storage) and call the library.
- `tests/` runs the library on concrete values.
