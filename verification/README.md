# kugou_api

An HTTP gateway to a music service's API, with its logic verified by Verus.

- `src/` is the verified library: JSON values with sorted keys (`json`),
  JavaScript-style conversions (`js`, with decimal texts read as a float
  parse reads them in `decimal`), request parameters and cookies
  (`params`, `cookies`), request signing (`signing`), URL and form encoding
  (`form`), the description and preparation of upstream requests
  (`upstream`), the shaping of upstream replies (`response`, `enrich`), the
  plan of every native module (`handlers` and its files), the HTTP-facing
  decisions (`server`), the script bridge (`bridge`), QR codes and base64
  (`qr`, `encoding`), the device identity (`device`) and start-up settings
  (`config`). `laws` states the properties that span several operations.
- `tests/` runs the library on concrete values.
- `app/` is the program: settings, the HTTP server, the QuickJS engine that
  runs the script modules, and the network calls the library plans.
