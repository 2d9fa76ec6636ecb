# qi

The parts of a qi node that decide something, with contracts that are proved with Verus: the
directory of services, the routing and handling of requests, the authentication of sessions, the
answers to calls, the search for a session to a service, the endpoints of servers, and the records
in which information on services travels.

- `src/` is the verified library.
- `app/` runs it over `tokio`: it waits, shares state between tasks, watches the network interfaces,
  reads and writes the texts of network addresses, and parses object traits with `syn`. It is given the messaging layer and the format of values.
- `tests/` runs the library.

## Modules

| Module | What it holds |
| --- | --- |
| `service`, `info_record`, `os`, `target`, `target_text`, `address` | information on services, and the record it travels in |
| `service_directory`, `directory_client` | the directory of services, and what its clients ask |
| `services`, `handler`, `server` | routing, handling and answering of requests |
| `auth`, `capabilities`, `control`, `session` | authentication and control of sessions |
| `store` | the sessions that are open, and the search for one |
| `node`, `hosting`, `endpoints` | setting up a node, its services and its endpoints |
| `object`, `meta`, `signal`, `object_trait` | objects, what they tell of themselves, and their members |
| `value`, `integers`, `formats`, `wire`, `payload` | values, and how they get in and out of payloads |
| `error`, `message`, `messaging` | errors and messages |
| `name_map`, `id_map`, `text`, `unique_id` | maps, texts and identifiers |

## What is not proved

Calls into other crates and into the standard library stand behind functions marked
`external_body`, each with a comment that says what is taken for granted: universally unique
identifiers (`unique_id`), byte buffers (`payload`) and the decoding of UTF-8 (`text`). Of the errors
of tasks and of input and output (`error`), and of where an object stands in memory (`object`),
nothing is taken for granted: contracts say which answer goes where, not what the answer is.
