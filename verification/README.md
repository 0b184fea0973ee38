# video_catalog

The catalog of a video service: categories, genres, cast members and videos,
kept up to date from change-data-capture events and stored in an
Elasticsearch index.

- `src/` is the library, verified with Verus: the domain model and its
  validation rules, the in-memory repositories, the use cases, the mapping of
  entities to index documents and back, the fields of the index, the searches
  the index is asked, and the decisions taken for each event (which use case
  runs, when a failure is retried, when a message goes to the dead-letter
  topic). Contracts are stated over views of the values; laws that relate several operations (a
  saved entity is found again, a deleted one is hidden, a document maps back
  to the entity it came from) are public proof functions.
- `tests/` exercises the library on concrete values.
- `app/` is the rest: reading the environment, the HTTP router, the requests
  to Elasticsearch and Kafka, the JSON forms of documents and events, and the
  containers that integration tests run against.
