# goodwe_web

A small web front end for the GoodWe SEMS Plus portal. It signs a user in, fetches
the charging records of a month and hands them to a page in the browser. The session
lives in a cookie of the client.

`src/` is the library, verified with Verus:

- `text`: comparing texts, numerals, hexadecimal, trimming.
- `crypto`: the request signature and the password encoding, over SHA-256, MD5 and
  Base64.
- `clock`: milliseconds since the Unix epoch.
- `calendar`: the length of a month and the window of time that it makes.
- `json`: JSON documents, read and written.
- `goodwe`: the portal's interface.
  - `token`: the token that a login grants.
  - `request`: the headers of a request, and what can come back of one.
  - `login`: the login request and the verdict on its reply.
  - `record`: charging sessions.
  - `fetch`: the charging log of a month, page by page.
- `cookies`: the cookies of a client, those that came and those that are sent.
- `routes`: what each route answers and what becomes of the session cookie.

`app/` is the server around it: HTTP in both directions, JSON encodings of the
library's types, and the floating point of the energy totals. It reads the page
`static/index.html` from its working directory at start-up and serves it.
