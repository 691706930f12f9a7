# mww

The logic of a small project-management service, written in Verus with
machine-checked contracts:

- `domain`: projects, project names (never empty) and the domain and
  repository errors;
- `libmww`: typed identifiers and database errors;
- `datastore`: keys, values, entities and queries of the datastore model,
  the datastore API messages as plain values, the conversions in both
  directions, the requests the client sends, transactions, allocated
  identifiers, and how projects are stored;
- `usecase`: what the project use cases answer for each outcome;
- `graphql`: the project object of the API;
- `frontend`: the project page's state machine and the API client's
  decisions;
- `text`: decimal text of integers.

`app/` holds the asynchronous plumbing around the library: the database and
repository traits, the datastore client over an abstract service, and the
project use cases.
