# mail_server

The request-handling logic of a mail proxy server (web client backend), as a
Verus-verified library, with a thin Rocket application around it.

`src/` (verified):

- `error` – the server's error values, their causes and their JSON message.
- `base64` – standard base64 encoding of session credentials, with laws on
  length, alphabet and injectivity.
- `login` – admission of mail logins: proxy mode, connection limit, one
  session per credentials.
- `oauth2` – the OAuth2 authorization-code token exchange: the request to
  send and the interpretation of the provider's reply.
- `redirect` – the OAuth2 redirect route: parameter checks, provider lookup,
  redirect URI, and the token cookie for web clients.
- `responses` – the settings, user, version and OAuth2-user answers.
- `cors` – the CORS headers added to every response.
- `mail_config` – the mail section of the configuration.
- `text`, `web_url` – trusted wrappers around `std` string functions and
  `reqwest::Url`.

`app/` is the Rocket server: configuration, routes, cookies, the outgoing
HTTP client and the calls into the mail library.
