# settlemate

Shared-expense bookkeeping: amounts in whole cents, equal and exact splits
that never lose a cent, the in-memory data of the desktop application
(people, groups, expenses, payments), and the decisions behind the web
application's forms (new expenses, settling up, registration, friends).

- `src/` is the verified library. `money` and `split` hold the arithmetic;
  `store`, `groups` and `ledger` the desktop data and its operations;
  `expense_form`, `settlement`, `registration`, `forms`, `friendship`,
  `friend_view` and `index_view` the web application's decisions; `text`
  the string helpers; `laws` the properties that span several functions.
- `app/` holds what the library cannot: conversions from floating point
  euros, the serialisable shapes of the desktop front end, the desktop
  commands over shared state, and the database migrations.
- `tests/` exercises the library on concrete values.
