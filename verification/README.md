# polaris

The request-handling rules of a music streaming server, verified with Verus.

`src/` is the library. Each module decides for one part of the API:

- `routes`: which operation serves which method and path, and who may ask for it
- `settings`: reading and changing the server settings
- `users`: first setup, login, and what administrators change
- `catalog`: browsing, listing and searching the collection
- `playlists`, `media`: playlists; audio files, thumbnails and peaks
- `context`, `config`: putting a server together from its managers
- `step`, `error`, `version`, `convert`, `text`: what these have in common
- `outside`: what is asked of the `regex` and `http` crates

The library makes no call to a manager itself. A request that needs more than
one is a sequence of `Step`s: each names the next call, and the state that its
outcome is handed to. The proof functions named `law_..` state what holds of
whole requests.

`app/` is the HTTP server around the library: it performs the calls, and turns
answers into responses. The managers are given to it as trait objects.
