# runtime

A verified library for a set of Shopee (shopee.co.id) buying tools, and the
command-line programs around it.

`src/` is the library, written in Verus: every function carries a contract
that Verus proves. It holds what the programs compute:

- `text`, `url`, `json`: character helpers, the web addresses the programs
  call, and the JSON value type the bodies carry.
- `prepare`: product links, cookies and csrf tokens, voucher links, and the
  account, address, product, courier and payment answers.
- `crypt`: device ids, fingerprints, csrf tokens and the `x-sap-ri` header.
- `voucher`: recommended-voucher choice, claim decisions, voucher terms and
  collection lookups.
- `task`, `task_ng`: checkout bodies, orders grouped by shop, couriers per
  shipping order, insurance, vouchers, and the price rewrites before an
  order.
- `cli`, `launcher`: option checks, menus, price limits, thread decisions,
  number and time formatting, and the command lines the launchers build.
- `upgrade`, `login`, `product`, `telegram`, `telemetry`, `video`: release
  versions and download names, QR login, flash-sale sessions, notifications,
  run logs and the video-reward runner.

Public proof functions named `law_*` state properties that hold across
calls (version comparison is a total order, decimal text reads back,
deselecting insurance twice is deselecting it once, a client-side voucher
never takes off more than its cap, ...).

`app/` is ordinary Rust: HTTP calls, files, prompts and the program entry
(`runtime <console|multi|savevoucher|deals|collection|flashsale|draw|video|qrlogin|updater>`).
It hands the library plain values and acts on what comes back.

`tests/` runs the library on concrete values.
