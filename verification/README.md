# garnd

`garnd` is a Linux service that lets processes share mutexes by name. A client connects to the
welcome socket and opens an *environment*; in the environment it opens mutexes. Everybody who opens
the same mutex in the same environment gets the same place in the same page of shared memory.

`src/` is the core of the service, verified with [Verus](https://github.com/verus-lang/verus):

| module | what it holds |
| --- | --- |
| `linux::shm_allocator` | where named resources lie in the pages of shared memory |
| `linux::shm_page` | the steps in which the file of a page is made |
| `linux::shm_teardown` | the end of the shared memory: resources first, then pages |
| `linux::welcome_thread` | what the thread does that welcomes clients and opens environments |
| `linux::environment_thread` | what the thread of an environment does, and how mutexes are opened |
| `linux::environment` | how an environment is started, and how clients get into it |
| `linux::socket_set` | the sockets of the clients of an environment |
| `linux::privileges` | the privileges that the service insists on running without |
| `linux::working_dir` | what the working directory has to be like |
| `linux::runtime` | the life of the service, from its start to the welcome thread |
| `linux::settings` | the numbers with which the kernel is asked for files |
| `linux::system` | the calls into the operating system, with what is assumed of them |
| `linux::runtime_error`, `linux::service_error` | what can go wrong, and what the log says about it |
| `teardown` | what destructors make of failures |
| `logger` | the names of the log files and their entries |
| `protocol`, `text`, `util`, `constants` | requests and answers, paths and numbers, messages, names |

The threads, and the end of the shared memory, are given as state machines: they name an action and
take its outcome. Other functions take the steps that they make as closures; what a function requires
of a step says when it can be called, and so in which order the steps come.

What holds of the threads and of the shared memory over all their steps is proved in
`linux::welcome_laws`, `linux::environment_laws` and `linux::shm_laws`; the other laws stand beside
what they are about.

`app/` is the program around the core: it carries out the actions, with real sockets, files, threads
and memory. It needs the crate `garnshared`, which holds the wire format and the mutexes that the
service and its clients have in common.

`tests/` runs the core on concrete values.
