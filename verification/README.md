# lariv_website

Seed for the Lariv marketing site: the Custom theme files and preferences, the static
media with their `/static/{name}` alias routes, the shared header and footer, and the
page routes with their header/footer references. Seeding is idempotent: files whose
stored bytes already match are kept, and builder projects are only dropped for routes
whose page, header or footer was rewritten.

Layout:

- `src/` — the verified library (Verus):
  - `text.rs` — string/character conversions and left-to-right replacement;
  - `media.rs` — `/media/{id}/` URLs and the `/static/{name}` markup rewrite;
  - `catalog.rs` — the files, folders and route paths that are seeded;
  - `vnode.rs` — keeping one file in place (lookup, blob comparison, rewrite/create);
  - `route.rs` — route rows for a seeded path and route reference rows;
  - `seeder.rs` — the whole seed as a state machine (state + event -> state + action);
  - `laws.rs` — properties of the seed proved over the above;
  - `store.rs` — a model of the store the seed acts on, and the proof that seeding
    twice is seeding once (`seeding_twice`);
  - `hook.rs` — the hook identities.
- `app/` — the program: runs the seed's actions against the database and file store.
  It reads the site assets at run time from `LARIV_WEBSITE_ASSETS` (default `assets/`).
- `tests/` — tests of the library.
