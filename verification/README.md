# auth_service

The rules of an e-mail / phone / sign-in-provider authentication service,
verified with Verus.

- `src/` is the verified library: the login journey (routing a login
  request, checking contact details, completing a profile, password checks,
  magic links, adding accounts), provider tokens (splitting, payload
  decoding, audience check, names), logout (bearer parsing, blacklist
  entry), token refresh and the token check, link verification, the records
  (`User`, `Otp`, `ForgotCode`), token claims and lifetimes, and the answers
  to requests. Database access, HTTP and token signing stay with the caller:
  each flow is a chain of functions that take the result of the previous
  outside step as an argument and say what to do next.
- `app/` is the HTTP server around it (actix-web, MongoDB, JWT signing with
  jwt-simple, serde copies of the library's types).
- `tests/` exercises the library on concrete values.
