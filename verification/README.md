# sdkwork_order

The decision logic of the sdkwork order store, verified with Verus: how
orders move between states, how payment and refund notifications settle
them, how money text is read and written in minor units, how physical
inventory reservations are planned and replayed, and how recharge,
membership and account value orders are priced and labelled.

## Layout

- `src/` — the verified library. Each module states its behaviour as
  `requires`/`ensures` over spec functions, and the properties that span
  several calls as public `law_*` proof functions.
  - `transitions`, `settlement`, `lifecycle` — order state machine,
    settlement of provider notifications, audit events and their SQL binds.
  - `payment` — compensation of stuck payments and refunds, reconciliation
    of provider answers, webhook account lookup.
  - `inventory`, `physical`, `checkout` — reservations, the physical
    checkout rules, checkout amounts and idempotent replays.
  - `money`, `recharge`, `membership`, `account_value`, `partner`,
    `shipment`, `catalog` — money text, recharge points, membership
    snapshots, refund bounds, partner snapshots, shipment packages and the
    platform catalog tenant.
  - `calendar`, `clock`, `json`, `text`, `error` — civil dates, the clock,
    JSON members, string helpers and the error type.
- `tests/` — tests of the library on concrete values.
- `app/` — a small runner against PostgreSQL with `sqlx`: the order
  expiration sweep, the recharge exchange settings in force, the creation
  of an owner order from a checkout session, and shipment package updates,
  using the library for every decision.

The calls into outside code (the clock, `serde_json`, `chrono`, `uuid`) go
through a few trusted wrappers whose contracts are stated next to them.
