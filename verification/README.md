# home_projects

A small web service that stores projects, their tasks and users. The
verified library in `src/` holds what the service decides; `app/` holds the
HTTP server, the database access and the reading of configuration.

- `settings`: settings, the database URL and connection options, the
  listening address, the run mode's configuration file, and the runtime
  environment with its case-insensitive parsing.
- `validation`: a validation report as a tree and its flattening into error
  items, with the laws that every failed check gives one item located under
  the starting path.
- `extract`: what a JSON body extractor answers when the body cannot be
  read, cannot be decoded, or fails validation.
- `entity`: the stored records and their time stamps.
- `router`: the decisions of the handlers (lookups, listings, creation,
  password hashing with Argon2).
- `text`: decimal rendering and splitting of strings.
