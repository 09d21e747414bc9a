# sqrwallet

A wallet for the Sequora chain with post-quantum keys (ML-DSA-65), written in Verus.

- `src/` is the library. Everything in it is verified, except the small wrappers that call other
  crates, whose contracts are taken on trust and say what is relied on. It holds the key file and
  its sealing, addresses, recovery phrases, transactions and what is signed of them, what is made
  of the chain's answers, and the local web server's decisions.
- `app/` is the program around it: the command line, files, prompts, HTTP and the dashboard page.
- `tests/` runs the library with the real crates.

Some of what is proved:

- a key file that was sealed with a password opens with it to the same keys;
- the recovery phrase of a new wallet brings the same wallet back;
- an existing key file is never written over before it was copied, and no path that was found
  taken is named again for a copy (that a copy takes the place of no other file rests on `app/`,
  which creates it exclusively);
- the bytes that are signed determine the message, the fee, the chain, the account and the
  sequence number;
- without the session token a request reaches neither the key file nor the chain.
