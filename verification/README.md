# skillxchange

The backend of a skill-exchange site: users register, log in with JWTs,
list skills and categories, send each other requests, reviews and messages.

- `src/` is the verified library. Each endpoint's decisions are functions from
  the request's data and the outcome of its database work to the next piece of
  work (`Step::Run`) or the answer (`Step::Respond`); their contracts state the
  answer for every outcome. `src/middleware` holds the role guard and the
  reading of token claims, `src/handlers` the endpoints, `src/laws.rs` the
  properties that span several steps.
- `app/` is the actix-web server: it reads requests, runs the SQL, signs and
  decodes tokens, and sends what the library answers.
