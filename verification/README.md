# Scrollr

Three services behind a ticker: live prices, live games and fantasy leagues.

`src/` is the library with the rules of the services, written and proved in Verus.

- `finance`: the queue of trades with the newest one for each symbol, the batches that empty it,
  what a trade or a quote writes to the table, and the settings of the service.
- `sports`: the leagues to read, the rows that the games of a scoreboard become, and the totals.
- `yahoo`: requests to the fantasy service and their repetitions, its errors, and what its replies
  come to.
- `backend`: signing in, what each page answers, and the correction of a wrong sport.
- `database` and `service`: where the database is, how the services are reached, how a log line
  reads.
- `text` and `number`: searching and splitting text, and numbers as text.
- `outside`: the calls into other crates, with what is relied on of each.

A price is held as the bits of a floating-point number: the library compares it with zero, and the
arithmetic on it stands in `app/`.

`app/` is the program around the library: `scrollr finance`, `scrollr sports` and `scrollr yahoo`.
It holds the servers, the database, the price feed, the sign-in and the log. `tests/` holds the
tests of the library.
