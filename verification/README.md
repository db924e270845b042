# regnmed_db

The rules of the regnmed ledger's persistence layer, written in Verus and
proved: what a voucher, an invoice, a payment run or a settlement must
hold before it is stored, the vouchers the system builds (and that they
balance), the hash chain of the ledger, subledger matching, period locks,
access resolution, and the follow-up of invoices and subscriptions.

- `src/` is the verified library. Every public function states in its
  contract what it returns or refuses, over plain values: dates as
  `Dato`, ids as `u128`, amounts in øre. Laws that span several calls
  are public proof functions named `lov_*`.
- `tests/` runs the library on concrete values.
- `app/` is the PostgreSQL plumbing: queries and transactions that read
  and write the database and hand plain values to the library.
