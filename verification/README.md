# object_store_aws

AWS extensions for the `object_store` crate, based on the AWS SDK: a
credentials source that caches and refreshes AWS credentials, and an HTTP
connector built on `aws-smithy-http-client`.

Layout:

- `src/` is the verified library.
  - `time.rs`: spans and points of time as plain integers, and the clock.
  - `decimal.rs`: reading unsigned decimal numbers, as `str::parse::<u64>` does.
  - `error.rs`: the errors of the credentials source and their messages.
  - `credentials.rs`: cached credentials, their expiry, and the steps of a
    credentials lookup (serve, re-check under write access, refresh, fallback).
  - `init.rs`: start-up decisions (region, first credentials, retry policy).
  - `http.rs`: the HTTP client builder, the connector and its timeouts.
- `app/` holds the asynchronous shell: the `AwsCredentials` source with its
  lock, `init`, and the implementations of the outside traits.
- `tests/` exercises the library.
