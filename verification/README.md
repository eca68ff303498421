# http-ferry

The verified core of a byte-transfer engine: bytes come from an HTTP source and
go into a sink, here an S3 multipart upload.

- `src/` is the library, verified with Verus. The S3 sink is a state machine:
  chunks and replies go in, requests and results come out. It holds no client
  and does no I/O.
  - `transfer`, `error`, `archive_it`: checksums and targets; the errors of the
    engine and of the archive client, and what they say.
  - `existing`: what the destination holds, and when an upload is skipped.
  - `multipart`, `pieces`: part sizes, completed parts, how bytes fall into parts.
  - `request`, `model`, `s3`: requests and events, the state machine as
    mathematics, and the sink that is proved to follow it.
  - `laws`: what holds over whole uploads, such as that every byte is sent once
    and in order however the source splits it.
- `app/` sends the requests with `aws-sdk-s3` and gives the errors `Display`.
- `tests/` drives the sink against scripted replies.
