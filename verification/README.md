# party

The tea party bulletin board: a tapp whose users post, extend and delete
messages in channels, send notifications to one another, and pay for messages
through transactions of the tea party contract.

`src/` is the verified library. Its modules:

- `ledger`, `amount`: the balance ledger of a tapp (mint, burn, transfer,
  batches) over amounts of any size, with the laws it keeps.
- `txn`: the contract's transactions and what executing one asks of the
  state machine.
- `message`, `channel`, `notification`: lifetimes, database names and the
  requests sent to the message database.
- `routing`, `query`, `p2p`, `topup`: where broker messages and HTTP actions
  go, how replies are built, which nodes receive a transaction, and top-ups.
- `keys`, `auth`, `codec`, `bytes`, `text`, `types`, `error`: storage keys,
  sessions, base64 and bincode, byte buffers, text, request types, errors.

`app/` holds the serde copies of the library's types and the actors' request
handlers, written against a host runtime trait.
