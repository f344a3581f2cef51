# latency_link

A network latency test between a streaming server and a headset client, with the parts around it:
the discovery announcement, the dashboard tab that starts a test, and the queries that the client
makes of the Android runtime.

The library under `src/` holds every decision and is verified with Verus. It does no input or
output: each procedure is a step from what has been observed to what is to be done next, and its
contract says exactly which step. What holds over whole tests (every requested frame is reported
once, messages arrive as they were sent, the results have one line per frame) is stated and proved
as public proof functions beside the code.

- `packets`: the values that travel between the parts
- `framing`: length-prefixed messages on the control connection
- `shards`: how many datagrams a frame is cut into
- `data_link`: the loop that reads the data link, on either side
- `client`: the listener, a run, the account of frames, the forwarding of reports
- `server`: the life of a test, a run, the results file
- `protocol`: what holds between the two sides
- `announcer`: the announcement and the sockets it is sent on
- `measurement`: the dashboard tab
- `android`: queries of the Android runtime
- `text`: decimal numbers

`app/` is ordinary Rust around the library: sockets, threads, files, widgets and JNI. The transport
of the data link is behind the traits in `app/link.rs`. `tests/` runs the library.

Two functions are trusted rather than proved, since they call into other crates: the size of a
serialised frame header (`bincode`) and the text of a time stamp (`chrono`). Each says what it takes
for granted.
