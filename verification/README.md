# gemcore

The rules at the core of the Gem wallet, verified with Verus: what the
settings, security, preferences and about screens list; the add-node and rewards
screen sessions; which transactions are scanned and what a scan is asked;
the in-memory config cache; the steps of a currency change; config values read from text; the choice of an
asset's primary price; rewards eligibility, referral events and redemptions;
abuse patterns of risk signals; NFT association sync; stored asset addresses.

`src/` is the verified library; each public function states its result in
its contract, and the laws that tie several functions together are public
proof functions (`lemma_*`). `tests/` runs the library on concrete values.
`app/` shares one config cache between threads against the monotonic clock.

Calls into `num-bigint`, `chrono`, `serde_json` and std's text functions stand
behind small trusted wrappers whose contracts say what their sources show.
