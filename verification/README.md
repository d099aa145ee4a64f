# axum_negotiator

Content negotiation for axum services, with its decisions verified by Verus.

- `src/` is the verified library: the media types (`media::Type`, kept as the
  text the `mime` crate renders), the supported media (`Html`, `Json`, `Form`,
  `Csv`, `Either`), the parsing of the `Accept` and `Content-Type` headers, the
  negotiation of a header's media type into a supported media
  (`media::Extractor::negotiate`), and the decisions of the middleware
  (`Service::proceed`, `Service::render`).
- `app/` is the HTTP side: axum extractors and header codecs, response
  rendering with askama and serde, the tower `Layer`/`Service` impls, and the
  reading of `q` qualities as floating-point numbers.
- `tests/` exercises the library on concrete values.
