# remux_trackers

Media trackers for the Remux media server, verified with Verus. A tracker is a service such as
Trakt: it is told what a user plays, marks and rates, and it is asked what the user has watched
elsewhere, so that the library of the server follows.

`src/` is the verified library. It decides and computes, and does no I/O: whatever goes on over
time (handling an event, importing a history, the sync task, a device login) is a machine that says
what is to be done next and goes on when it is told how that went. Each step has an exact contract
over a model of the machine. What holds of whole runs is stated and proved as public lemmas beside
it: that an import only reads, that one tracker that fails does not keep the others from being told,
that no more titles are added than may be, that a request about the trackers of another user is
refused before anything is read.

`app/` runs the machines: it sends the requests, reads and writes the database, serves the routes
and draws the page of the dashboard. Floating-point arithmetic stands there too; the library carries
doubles as bit patterns and compares them as integers.

What the library has from other crates it has through the functions marked
`#[verifier::external_body]`: JSON values from `serde_json` (`src/json.rs`), dates from `chrono` and
the clock from `std` (`src/time.rs`), addresses from `url` (`src/rest.rs`), and the text of ids from
`uuid` (`src/ids.rs`). Their contracts are believed, not proved.
